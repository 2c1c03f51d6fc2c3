//! Verified core of an interactive SDK install/update tool.
//!
//! The library holds everything the tool decides and computes: byte-string
//! helpers, command-line argument lookup, interpretation of the operator's
//! answers, classification of the update-check response, the policy that
//! promotes extracted archive entries, and the install/update orchestration
//! expressed as a state machine together with a filesystem model over which
//! its guarantees are proved.  All input and output (terminal, network,
//! filesystem, child processes) lives outside the library and hands it plain
//! values.

pub mod args;
pub mod bytes;
pub mod info;
pub mod machine;
pub mod model;
pub mod promote;
pub mod prompt;
