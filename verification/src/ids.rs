//! Identifiers and clock readings that come from outside the library.

use vstd::prelude::*;

use crate::text::uuid_hyphenated;

verus! {

/// `uuid::Uuid::new_v4()`, rendered by `to_string` in its hyphenated form.
/// The value is random: it is stated to be the hyphenated form of some
/// 128-bit value, 36 characters long.
#[verifier::external_body]
pub(crate) fn new_uuid_string() -> (s: String)
    ensures
        exists|u: u128| s@ == #[trigger] uuid_hyphenated(u),
        s@.len() == 36,
{
    uuid::Uuid::new_v4().to_string()
}

/// Seconds since the UNIX epoch from `std::time::SystemTime::now()`; a clock
/// before the epoch reads as 0. Nothing is stated of the value: it is the time.
#[verifier::external_body]
pub(crate) fn now_epoch_secs() -> (t: u64) {
    std::time::SystemTime::now()
        .duration_since(std::time::UNIX_EPOCH)
        .unwrap_or_default()
        .as_secs()
}

/// The current UTC time from `chrono::Utc::now()`, formatted by chrono as
/// `%Y-%m-%dT%H:%M:%SZ`. Nothing is stated of the text: it is the time.
#[verifier::external_body]
pub(crate) fn now_utc_timestamp() -> (t: String) {
    chrono::Utc::now().format("%Y-%m-%dT%H:%M:%SZ").to_string()
}

/// `uuid::Uuid::new_v4()` as its 128-bit value (`as_u128`). The value is
/// random: nothing is stated of it.
#[verifier::external_body]
pub(crate) fn new_uuid_u128() -> (u: u128) {
    uuid::Uuid::new_v4().as_u128()
}

} // verus!
