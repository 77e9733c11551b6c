//! What the surroundings supply: the time of day and fresh identifiers.

use vstd::prelude::*;

verus! {

/// A moment in UTC: whole seconds since the start of 1970 and the nanoseconds
/// within the second.
#[derive(Debug, Clone, Copy, PartialEq, Eq, Structural)]
pub struct Timestamp {
    pub secs: i64,
    pub nanos: u32,
}

/// The present moment, read with `chrono::Utc::now`. Nothing is promised of
/// it: two readings may differ, and the clock may go back.
#[verifier::external_body]
pub(crate) fn now_utc() -> Timestamp {
    let now = chrono::Utc::now();
    Timestamp { secs: now.timestamp(), nanos: now.timestamp_subsec_nanos() }
}

/// A random identifier, drawn with `uuid::Uuid::new_v4` and held as the
/// 128-bit number that the identifier spells. Nothing is promised of it.
#[verifier::external_body]
pub(crate) fn fresh_id() -> u128 {
    uuid::Uuid::new_v4().as_u128()
}

} // verus!
