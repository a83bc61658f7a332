//! Timestamp handling, delegated to the `chrono` crate.
//!
//! The pipeline treats a timestamp as text.  Two things are needed from a
//! calendar library: deciding whether a piece of text is a well-formed
//! RFC 3339 datetime (and putting it into canonical form), and reading the
//! present wall-clock time.  Both are trusted calls into `chrono`.

use vstd::prelude::*;

verus! {

/// What `chrono` makes of a piece of text read as an RFC 3339 datetime:
/// nothing when the text is malformed, otherwise the same instant
/// rendered canonically in UTC.  A function of the characters alone.
pub uninterp spec fn rfc3339_reformat(s: Seq<char>) -> Option<Seq<char>>;

/// Relies on chrono's `DateTime::parse_from_rfc3339`, `with_timezone`
/// and `to_rfc3339`: parsing fails exactly on malformed text, and the
/// result of the round through UTC depends on the characters alone.
#[verifier::external_body]
pub(crate) fn normalize_timestamp(s: &str) -> (r: Option<String>)
    ensures
        match (r, rfc3339_reformat(s@)) {
            (Some(t), Some(u)) => t@ == u,
            (None, None) => true,
            _ => false,
        },
{
    match chrono::DateTime::parse_from_rfc3339(s) {
        Ok(dt) => Some(dt.with_timezone(&chrono::Utc).to_rfc3339()),
        Err(_) => None,
    }
}

/// Relies on chrono's `Utc::now` and `to_rfc3339`: whatever instant the
/// clock reports, `to_rfc3339` renders it as a well-formed RFC 3339
/// datetime, which `parse_from_rfc3339` accepts again.
#[verifier::external_body]
pub(crate) fn now_rfc3339() -> (r: String)
    ensures
        rfc3339_reformat(r@) is Some,
{
    chrono::Utc::now().to_rfc3339()
}

} // verus!
