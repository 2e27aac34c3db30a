//! The wall clock.

use vstd::prelude::*;

verus! {

/// `std::time::SystemTime`, carried through as an opaque value.
#[verifier::external_type_specification]
#[verifier::external_body]
pub struct ExSystemTime(std::time::SystemTime);

/// Calls `std::time::SystemTime::now`. The result is the machine's clock, so
/// nothing is promised of it.
#[verifier::external_body]
fn now() -> (t: std::time::SystemTime) {
    std::time::SystemTime::now()
}

/// Calls `SystemTime::duration_since` with the Unix epoch: the time elapsed
/// since then, or nothing for a time before it.
#[verifier::external_body]
fn since_epoch(t: &std::time::SystemTime) -> (elapsed: Option<std::time::Duration>) {
    t.duration_since(std::time::UNIX_EPOCH).ok()
}

/// Calls `Duration::as_millis`: the whole milliseconds of a duration.
#[verifier::external_body]
fn whole_millis(elapsed: &std::time::Duration) -> (millis: u128) {
    elapsed.as_millis()
}

/// The number of values that 64 bits hold.
pub open spec fn two_to_64() -> int {
    0x1_0000_0000_0000_0000
}

/// A reading of the clock as a timestamp: the low 64 bits of the whole
/// milliseconds since the Unix epoch, and zero where the clock stood before
/// the epoch (no reading).
pub open spec fn timestamp_of(reading: Option<u128>) -> int {
    match reading {
        Some(wide) => wide as int % two_to_64(),
        None => 0,
    }
}

/// Turns a reading of the clock into a timestamp.
pub fn millis_from(reading: Option<u128>) -> (millis: u64)
    ensures
        millis as int == timestamp_of(reading),
{
    match reading {
        Some(wide) => {
            let low: u128 = wide % 0x1_0000_0000_0000_0000u128;
            low as u64
        },
        None => 0,
    }
}

/// The wall clock as a timestamp. The reading is the machine's, so nothing
/// is promised of the result; `millis_from` says what becomes of each reading.
pub(crate) fn unix_millis() -> (millis: u64) {
    let t = now();
    let reading: Option<u128> = match since_epoch(&t) {
        Some(elapsed) => Some(whole_millis(&elapsed)),
        None => None,
    };
    millis_from(reading)
}

} // verus!
