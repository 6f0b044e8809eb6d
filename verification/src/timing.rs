//! The clock's unit, the game's constants and the three comparisons that every
//! rule of timing is made of.
use vstd::prelude::*;

verus! {

/// Microseconds in one second: the unit of every time value.
pub const MICROS_PER_SECOND: i64 = 1_000_000;

/// Half-width of the window around a note's target time in which a press
/// counts: 0.15 s.
pub const HIT_MARGIN: i64 = 150_000;

/// How long before its target time a note becomes live: 5 s.
pub const LOOKAHEAD: i64 = 5_000_000;

/// Fall speed, in screen units per second (equally: millionths of a unit per
/// microsecond).
pub const FALL_SPEED: i64 = 200;

/// Largest magnitude of a time value that the library works on (about 31
/// years), chosen so that no rule overflows an `i64`.
pub const MAX_TIME: i64 = 1_000_000_000_000_000;

/// A time value that the library accepts.
pub open spec fn valid_time(t: int) -> bool {
    -MAX_TIME <= t <= MAX_TIME
}

/// An entry with this target time is within the lookahead at time `t`.
pub open spec fn spawn_due(target: int, t: int) -> bool {
    target - LOOKAHEAD <= t
}

/// Time `t` lies strictly inside the hit window around `target`.
pub open spec fn in_hit_window(target: int, t: int) -> bool {
    -HIT_MARGIN < t - target < HIT_MARGIN
}

/// Time `t` lies strictly after the hit window around `target`.
pub open spec fn past_hit_window(target: int, t: int) -> bool {
    t > target + HIT_MARGIN
}

/// Tells whether `t` is a time value that the library accepts.
pub fn is_valid_time(t: i64) -> (r: bool)
    ensures
        r == valid_time(t as int),
{
    -MAX_TIME <= t && t <= MAX_TIME
}

/// Tells whether an entry with target time `target` is due to spawn at `t`.
pub fn is_spawn_due(target: i64, t: i64) -> (r: bool)
    requires
        valid_time(target as int),
        valid_time(t as int),
    ensures
        r == spawn_due(target as int, t as int),
{
    target - LOOKAHEAD <= t
}

/// Tells whether `t` is strictly inside the hit window around `target`.
pub fn is_in_hit_window(target: i64, t: i64) -> (r: bool)
    requires
        valid_time(target as int),
        valid_time(t as int),
    ensures
        r == in_hit_window(target as int, t as int),
{
    let delta: i64 = t - target;
    -HIT_MARGIN < delta && delta < HIT_MARGIN
}

/// Tells whether `t` is strictly after the hit window around `target`.
pub fn is_past_hit_window(target: i64, t: i64) -> (r: bool)
    requires
        valid_time(target as int),
        valid_time(t as int),
    ensures
        r == past_hit_window(target as int, t as int),
{
    t > target + HIT_MARGIN
}

} // verus!
