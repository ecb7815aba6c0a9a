//! Points in time, as nanoseconds on a clock that never goes back.

use vstd::prelude::*;

verus! {

/// The nanoseconds of a millisecond.
pub const MILLISECOND: u64 = 1_000_000;

/// The time that has gone by between two points, and none where the second comes first.
pub open spec fn elapsed(then: u64, now: u64) -> int {
    if then <= now {
        now - then
    } else {
        0
    }
}

/// The time that has gone by between two points.
pub fn since(then: u64, now: u64) -> (r: u64)
    ensures
        r == elapsed(then, now),
{
    if then <= now {
        now - then
    } else {
        0
    }
}

/// The point in time that lies `wait` ahead, or the last one that there is.
pub open spec fn later(now: u64, wait: u64) -> u64 {
    if now + wait <= u64::MAX {
        (now + wait) as u64
    } else {
        u64::MAX
    }
}

/// The point in time that lies `wait` ahead.
pub fn after(now: u64, wait: u64) -> (r: u64)
    ensures
        r == later(now, wait),
{
    if wait <= u64::MAX - now {
        now + wait
    } else {
        u64::MAX
    }
}

/// To wait until a point that lies `wait` ahead is to let that time go by.
pub proof fn waiting_lets_time_go_by(start: u64, wait: u64, now: u64)
    requires
        start + wait <= u64::MAX,
        start <= now,
    ensures
        later(start, wait) <= now <==> elapsed(start, now) >= wait,
{
}

/// The time that goes by leads from the one point to the other, and none goes by backwards; a wait
/// ends as much later as it is long, or with the clock.
pub proof fn times_add_up(then: u64, now: u64, wait: u64)
    ensures
        then <= now ==> then + elapsed(then, now) == now,
        then >= now ==> elapsed(then, now) == 0,
        now + wait <= u64::MAX ==> later(now, wait) - now == wait,
        now + wait > u64::MAX ==> later(now, wait) == u64::MAX,
        MILLISECOND * 1000 == 1_000_000_000,
{
}

} // verus!
