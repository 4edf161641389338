//! The wall clock.

use vstd::prelude::*;

verus! {

/// The current UTC time as ISO-8601/RFC 3339 text with a `Z` suffix.
///
/// Relies on `chrono::Utc::now` for the instant and on
/// `chrono::DateTime::to_rfc3339_opts` for its text. A clock reading
/// promises nothing a contract could state, so every caller must hold for
/// any returned text.
#[verifier::external_body]
pub fn now_utc_rfc3339() -> String {
    chrono::Utc::now().to_rfc3339_opts(chrono::SecondsFormat::AutoSi, true)
}

} // verus!
