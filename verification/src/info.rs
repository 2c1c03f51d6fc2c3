//! Classification of the update-check response.
//!
//! The remote service answers with a flat key-value mapping; the
//! surrounding program extracts the download-URL value and the
//! latest-version value (each possibly absent) and asks the library what
//! to do.  A missing download URL is fatal, an empty version identifier
//! means the install is already current, a missing one leaves the answer
//! to the operator.

use vstd::prelude::*;

verus! {

/// What the update-check response said, as plain values: the download-URL
/// value and the latest-version value, each absent when the response
/// lacked its key.
pub struct UpdateInfo {
    pub download_url: Option<Vec<u8>>,
    pub version_id: Option<Vec<u8>>,
}

/// What to do about the response.
#[derive(Clone, Copy, PartialEq, Eq, Structural, Debug)]
pub enum UpdateDecision {
    /// No download URL: fatal, nothing may be downloaded or touched.
    MissingUrl,
    /// The version identifier is present and empty: already current,
    /// nothing to do.
    UpToDate,
    /// A newer version is named: propose the update, defaulting to yes.
    Available,
    /// No version identifier: unknown whether an update exists; propose
    /// it, defaulting to no.
    Uncertain,
}

/// The decision the tool owes a given response.
pub open spec fn decision_of(info: UpdateInfo) -> UpdateDecision {
    if info.download_url is None {
        UpdateDecision::MissingUrl
    } else if info.version_id is Some {
        if info.version_id->0@.len() == 0 {
            UpdateDecision::UpToDate
        } else {
            UpdateDecision::Available
        }
    } else {
        UpdateDecision::Uncertain
    }
}

/// Classifies the update-check response.
pub fn classify(info: &UpdateInfo) -> (d: UpdateDecision)
    ensures
        d == decision_of(*info),
{
    match &info.download_url {
        Option::None => UpdateDecision::MissingUrl,
        Option::Some(_) => match &info.version_id {
            Option::Some(v) => if v.len() == 0 {
                UpdateDecision::UpToDate
            } else {
                UpdateDecision::Available
            },
            Option::None => UpdateDecision::Uncertain,
        },
    }
}

/// The default offered at the "install it?" prompt: yes when a newer
/// version is positively known, no when its existence is uncertain.
pub fn prompt_default(d: UpdateDecision) -> (r: bool)
    ensures
        r == (d == UpdateDecision::Available),
{
    match d {
        UpdateDecision::Available => true,
        _ => false,
    }
}

/// Whether the install/update sequence may start at all: only on a
/// positive or uncertain update, and only with the operator's consent.
pub open spec fn may_proceed(d: UpdateDecision, consent: bool) -> bool {
    (d == UpdateDecision::Available || d == UpdateDecision::Uncertain) && consent
}

/// Decides whether to start the install/update sequence.
pub fn proceed(d: UpdateDecision, consent: bool) -> (r: bool)
    ensures
        r == may_proceed(d, consent),
{
    match d {
        UpdateDecision::Available => consent,
        UpdateDecision::Uncertain => consent,
        _ => false,
    }
}

/// A response without the download-URL key stops the tool before any
/// download or filesystem step, whatever the operator would answer.
pub proof fn lemma_missing_url_stops(info: UpdateInfo, consent: bool)
    requires
        info.download_url is None,
    ensures
        decision_of(info) == UpdateDecision::MissingUrl,
        !may_proceed(decision_of(info), consent),
{
}

/// A response whose version identifier is empty reports "already up to
/// date" and starts no download or filesystem step, whatever the operator
/// would answer.
pub proof fn lemma_up_to_date_stops(info: UpdateInfo, consent: bool)
    requires
        info.download_url is Some,
        info.version_id is Some,
        info.version_id->0@.len() == 0,
    ensures
        decision_of(info) == UpdateDecision::UpToDate,
        !may_proceed(decision_of(info), consent),
{
}

} // verus!
