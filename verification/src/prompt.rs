//! Interpretation of the operator's typed answers.
//!
//! The surrounding program prints a prompt, reads one line (or fails to),
//! and hands the outcome here.  A trimmed, case-insensitive `y` means yes,
//! `n` means no; anything else — empty input, other text, or a failed
//! read — yields the caller-supplied default, so the tool never stalls on
//! malformed input.

use vstd::prelude::*;
use crate::bytes::{trim, trim_bytes};

verus! {

/// ASCII lower-casing of one byte.
pub open spec fn lower(c: u8) -> u8 {
    if 65 <= c <= 90 {
        (c + 32) as u8
    } else {
        c
    }
}

/// Whether `s`, trimmed and lower-cased, is exactly the one letter `c`.
pub open spec fn is_answer(s: Seq<u8>, c: u8) -> bool {
    trim(s).len() == 1 && lower(trim(s)[0]) == c
}

/// What `confirm` returns: yes on `y`, no on `n`, otherwise the default.
pub open spec fn answer_of(line: Option<Seq<u8>>, default: bool) -> bool {
    match line {
        Option::Some(s) => if is_answer(s, 121) {
            true
        } else if is_answer(s, 110) {
            false
        } else {
            default
        },
        Option::None => default,
    }
}

/// Interprets one line of operator input; `None` stands for a failed read.
pub fn confirm(line: &Option<Vec<u8>>, default: bool) -> (r: bool)
    ensures
        r == answer_of(
            match line {
                Option::Some(v) => Option::Some(v@),
                Option::None => Option::None,
            },
            default,
        ),
{
    match line {
        Option::Some(v) => {
            let t = trim_bytes(v);
            if t.len() == 1 {
                let c = t[0];
                if c == 121 || c == 89 {
                    true
                } else if c == 110 || c == 78 {
                    false
                } else {
                    default
                }
            } else {
                default
            }
        },
        Option::None => default,
    }
}

/// The default-on-ambiguity law: whenever the input line is neither a `y`
/// nor an `n` answer (a failed read included), `confirm` returns exactly
/// the supplied default.
pub proof fn lemma_confirm_default(line: Option<Seq<u8>>, default: bool)
    requires
        match line {
            Option::Some(s) => !is_answer(s, 121) && !is_answer(s, 110),
            Option::None => true,
        },
    ensures
        answer_of(line, default) == default,
{
}

} // verus!
