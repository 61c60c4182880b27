//! What the library takes from the standard clock: the time of day as a
//! value that is carried, and the length of a time span in milliseconds.

use vstd::prelude::*;
use std::time::{Duration, SystemTime};

verus! {

/// A point in time of the system clock, carried through unread.
#[verifier::external_type_specification]
#[verifier::external_body]
pub struct ExSystemTime(SystemTime);

/// The whole milliseconds that a time span holds.
pub uninterp spec fn duration_millis(span: Duration) -> nat;

/// `Duration::as_millis` gives the whole milliseconds of the span.
pub assume_specification[ Duration::as_millis ](span: &Duration) -> (millis: u128)
    ensures
        millis == duration_millis(*span),
;

/// `Duration::from_millis` gives the span of that many milliseconds.
pub assume_specification[ Duration::from_millis ](millis: u64) -> (span: Duration)
    ensures
        duration_millis(span) == millis,
;

/// `Duration::default` is the empty span.
pub assume_specification[ <Duration as Default>::default ]() -> (span: Duration)
    ensures
        duration_millis(span) == 0,
;

/// A copy of a point in time is the same point in time.
pub assume_specification[ <SystemTime as Clone>::clone ](time: &SystemTime) -> (copy: SystemTime)
    ensures
        copy == *time,
;

/// Calls `SystemTime::now`. Nothing is stated of the result: it is
/// whatever the clock shows.
#[verifier::external_body]
pub(crate) fn current_time() -> (now: SystemTime) {
    SystemTime::now()
}

/// Calls `SystemTime::elapsed`: the span from `start` to now, and `None`
/// where the clock shows a time before `start`. Nothing more is stated of
/// the result.
#[verifier::external_body]
pub(crate) fn time_since(start: &SystemTime) -> (span: Option<Duration>) {
    start.elapsed().ok()
}

} // verus!
