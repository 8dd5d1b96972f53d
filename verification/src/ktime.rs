//! Monotonic-time arithmetic.
//!
//! Time values are signed nanosecond counts ([`KtimeT`]). Every operation here
//! is a pure computation on such values; each is specified exactly, and the
//! preconditions rule out signed overflow rather than wrapping silently.

use vstd::prelude::*;

verus! {

/// A time value: a signed count of nanoseconds.
pub type KtimeT = i64;

/// Nanoseconds in one second.
pub const NSEC_PER_SEC: i64 = 1_000_000_000;

/// The largest whole-second value below the saturation threshold of
/// [`ktime_set`]: `i64::MAX / NSEC_PER_SEC`, rounded toward zero.
pub const KTIME_SEC_MAX: i64 = 9_223_372_036;

/// Subtracts one time value from another.
pub fn ktime_sub(lhs: KtimeT, rhs: KtimeT) -> (r: KtimeT)
    requires
        i64::MIN <= lhs - rhs <= i64::MAX,
    ensures
        r == lhs - rhs,
{
    lhs - rhs
}

/// Adds two time values.
pub fn ktime_add(kt: KtimeT, nsval: KtimeT) -> (r: KtimeT)
    requires
        i64::MIN <= kt + nsval <= i64::MAX,
    ensures
        r == kt + nsval,
{
    kt + nsval
}

/// Adds an unsigned nanosecond count to a time value.
pub fn ktime_add_ns(kt: KtimeT, nsval: u64) -> (r: KtimeT)
    requires
        nsval <= i64::MAX,
        kt + nsval <= i64::MAX,
    ensures
        r == kt + nsval,
{
    kt + (nsval as i64)
}

/// Converts a time value to a plain nanosecond count.
pub fn ktime_to_ns(kt: KtimeT) -> (r: i64)
    ensures
        r == kt,
{
    kt
}

/// Builds a time value from whole seconds plus a nanosecond remainder,
/// saturating at `i64::MAX` once the seconds alone exceed the representable
/// range.
pub fn ktime_set(secs: i64, nsecs: usize) -> (r: KtimeT)
    requires
        -KTIME_SEC_MAX <= secs,
        nsecs < NSEC_PER_SEC,
    ensures
        r == if secs >= KTIME_SEC_MAX { i64::MAX as int } else { secs * NSEC_PER_SEC + nsecs },
{
    if secs >= KTIME_SEC_MAX {
        i64::MAX
    } else {
        secs * NSEC_PER_SEC + (nsecs as i64)
    }
}

/// Division of a nanosecond count, truncating toward zero, as the native
/// time-value division does.
pub open spec fn spec_divns(kt: int, div: int) -> int
    recommends
        div > 0,
{
    if kt >= 0 {
        kt / div
    } else {
        -((-kt) / div)
    }
}

/// Divides a time value by a positive divisor, truncating toward zero.
pub fn ktime_divns(kt: KtimeT, div: i64) -> (r: i64)
    requires
        div > 0,
    ensures
        r == spec_divns(kt as int, div as int),
{
    if kt >= 0 {
        let q: u64 = (kt as u64) / (div as u64);
        q as i64
    } else {
        let m: i128 = -(kt as i128);
        let q: u64 = (m as u64) / (div as u64);
        if q == 9_223_372_036_854_775_808u64 {
            i64::MIN
        } else {
            -(q as i64)
        }
    }
}

/// Three-way comparison of two time values: negative, zero or positive as the
/// first is below, equal to or above the second.
pub fn ktime_compare(cmp1: KtimeT, cmp2: KtimeT) -> (r: KtimeT)
    ensures
        cmp1 < cmp2 ==> r == -1,
        cmp1 == cmp2 ==> r == 0,
        cmp1 > cmp2 ==> r == 1,
{
    if cmp1 < cmp2 {
        -1
    } else if cmp1 > cmp2 {
        1
    } else {
        0
    }
}

} // verus!
