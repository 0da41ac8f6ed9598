//! Report-identity providers: the fresh report identifier and the assembly
//! timestamp. Both are inherently non-deterministic, so assembly takes them
//! as arguments and these providers supply the production values.
use vstd::prelude::*;

verus! {

/// Relies on uuid::Uuid::new_v4 and the uuid crate's Display rendering: a
/// version-4 UUID formats as the 36-character lowercase hyphenated form.
/// The value is random, so nothing beyond its length is promised.
#[verifier::external_body]
pub(crate) fn fresh_report_id() -> (r: String)
    ensures
        r@.len() == 36,
{
    uuid::Uuid::new_v4().to_string()
}

/// Relies on chrono::Utc::now and chrono's formatting: the current UTC time
/// rendered with the fixed `%Y-%m-%d %H:%M:%S UTC` layout. The value depends
/// on the clock, so nothing is promised of it.
#[verifier::external_body]
pub(crate) fn current_timestamp() -> (r: String) {
    chrono::Utc::now().format("%Y-%m-%d %H:%M:%S UTC").to_string()
}

} // verus!
