use vstd::prelude::*;

verus! {

/// `std::time::Instant`, a reading of the monotonic clock; carried through unopened.
#[verifier::external_type_specification]
#[verifier::external_body]
pub struct ExInstant(std::time::Instant);

/// Calls `Instant::now`. What it returns depends on the clock, so nothing is stated of it.
#[verifier::external_body]
pub fn now() -> (r: std::time::Instant) {
    std::time::Instant::now()
}

/// Calls `Instant::duration_since`, the time elapsed from `start` to `end` (zero if `start` is
/// later). The value is not stated: neither instant's reading is visible here.
#[verifier::external_body]
pub fn duration_since(end: std::time::Instant, start: std::time::Instant) -> (r: std::time::Duration) {
    end.duration_since(start)
}

/// The time between two optional clock readings, each given in nanoseconds from a common
/// starting point, if both are present. As with the monotonic clock's `duration_since`, a start
/// later than the end gives zero.
pub fn calculate_time(start: Option<u64>, end: Option<u64>) -> (r: Option<u64>)
    ensures
        r == match (start, end) {
            (Some(s), Some(e)) => Some(if e >= s { (e - s) as u64 } else { 0u64 }),
            _ => None::<u64>,
        },
{
    match (start, end) {
        (Some(start), Some(end)) => Some(end.saturating_sub(start)),
        _ => None,
    }
}

} // verus!
