//! What the crate relies on of `std::time::Duration`: its length in
//! nanoseconds, and the constructors that fix it.

use std::time::Duration;
use vstd::prelude::*;

verus! {

/// The length of a duration in nanoseconds (what `Duration::as_nanos` returns).
pub uninterp spec fn duration_nanos(d: Duration) -> nat;

/// `Duration::as_nanos` returns the whole length in nanoseconds.
pub assume_specification[ Duration::as_nanos ](d: &Duration) -> (n: u128)
    ensures
        n as nat == duration_nanos(*d),
;

/// `Duration::as_millis` returns the whole number of milliseconds
/// (std: "Returns the total number of whole milliseconds").
pub assume_specification[ Duration::as_millis ](d: &Duration) -> (n: u128)
    ensures
        n as nat == duration_nanos(*d) / 1_000_000,
;

/// `Duration::from_secs` makes a duration of the given whole seconds.
pub assume_specification[ Duration::from_secs ](secs: u64) -> (d: Duration)
    ensures
        duration_nanos(d) == secs as nat * 1_000_000_000,
;

/// `Duration::from_millis` makes a duration of the given milliseconds.
pub assume_specification[ Duration::from_millis ](millis: u64) -> (d: Duration)
    ensures
        duration_nanos(d) == millis as nat * 1_000_000,
;

/// `Duration::from_nanos` makes a duration of the given nanoseconds.
pub assume_specification[ Duration::from_nanos ](nanos: u64) -> (d: Duration)
    ensures
        duration_nanos(d) == nanos as nat,
;

/// `Duration::new` makes a duration of whole seconds and additional
/// nanoseconds; below a billion nanoseconds nothing carries into the seconds,
/// so it cannot overflow (it panics only when a carry overflows).
pub assume_specification[ Duration::new ](secs: u64, nanos: u32) -> (d: Duration)
    requires
        nanos < 1_000_000_000,
    ensures
        duration_nanos(d) == secs as nat * 1_000_000_000 + nanos as nat,
;

/// Cloning a `Duration` copies it.
pub assume_specification[ <Duration as Clone>::clone ](d: &Duration) -> (r: Duration)
    ensures
        r == *d,
;

} // verus!
