//! Arithmetic on lengths in units of 1/1024 pixel: rounding to pixels,
//! products, and moves that take time.

use vstd::prelude::*;

verus! {

/// Number of subpixel units in one pixel, and of position units in one cell.
/// Font metrics arrive in this scale; lengths, offsets and cursor positions
/// are kept in it.
pub const SCALE: i64 = 1024;

/// Largest number of rows or columns of a grid, and largest row or column a
/// cursor can be sent to.
pub const MAX_GRID: u64 = 0x100_0000;

/// Largest magnitude, in units, of an offset that can be animated.
pub const MAX_OFFSET: i64 = 0x1000_0000_0000_0000;

/// The whole pixel that holds subpixel position `u`.
pub open spec fn floor_px(u: int) -> int {
    u / 1024
}

/// The least whole number of pixels that covers `u` subpixel units.
pub open spec fn ceil_px(u: int) -> int {
    (u + 1023) / 1024
}

/// A length in units as whole pixels, rounded towards zero.
pub open spec fn trunc_px(u: int) -> int {
    if u >= 0 {
        u / 1024
    } else {
        -((-u) / 1024)
    }
}

/// Product of two quantities in units, again in units, rounded down.
pub open spec fn scaled(a: int, b: int) -> int {
    (a * b) / 1024
}

/// `v` brought into the range of `i32`.
pub open spec fn clamp_i32(v: int) -> int {
    if v < i32::MIN {
        i32::MIN as int
    } else if v > i32::MAX {
        i32::MAX as int
    } else {
        v
    }
}

/// Rounds a subpixel position down to a whole pixel.
pub fn floor_to_px(u: i64) -> (p: i64)
    ensures
        p == floor_px(u as int),
        p * 1024 <= u < p * 1024 + 1024,
{
    let q: i64 = u / 1024;
    let r: i64 = u % 1024;
    if r < 0 {
        q - 1
    } else {
        q
    }
}

/// Rounds a subpixel length up to whole pixels.
pub fn ceil_to_px(u: i64) -> (p: i64)
    ensures
        p == ceil_px(u as int),
        p * 1024 - 1024 < u <= p * 1024,
{
    let q: i64 = u / 1024;
    let r: i64 = u % 1024;
    if r > 0 {
        q + 1
    } else {
        q
    }
}

/// Rounds a length in units to whole pixels, towards zero.
pub fn trunc_to_px(u: i64) -> (p: i64)
    ensures
        p == trunc_px(u as int),
{
    if u >= 0 {
        u / 1024
    } else if u == -9223372036854775808 {
        -9007199254740992
    } else {
        -((-u) / 1024)
    }
}

/// Converts a pixel count to `i32`, stopping at the ends of its range.
pub fn to_i32(v: i64) -> (p: i32)
    ensures
        p == clamp_i32(v as int),
{
    if v < -2147483648 {
        -2147483648
    } else if v > 2147483647 {
        2147483647
    } else {
        v as i32
    }
}

/// Whether the product of two quantities in units fits in `i64`.
pub open spec fn scaled_fits(a: int, b: int) -> bool {
    i64::MIN <= scaled(a, b) <= i64::MAX
}

/// Multiplies two quantities in units, rounding the product down.
pub fn mul_scaled(a: i64, b: i64) -> (p: i64)
    requires
        scaled_fits(a as int, b as int),
    ensures
        p == scaled(a as int, b as int),
{
    assert(-0x4000_0000_0000_0000_0000_0000_0000_0000 <= (a as int) * (b as int)
        <= 0x4000_0000_0000_0000_0000_0000_0000_0000) by (nonlinear_arith)
        requires
            -0x8000_0000_0000_0000 <= a <= 0x7fff_ffff_ffff_ffff,
            -0x8000_0000_0000_0000 <= b <= 0x7fff_ffff_ffff_ffff,
    ;
    let wide: i128 = (a as i128) * (b as i128);
    let q: i128 = wide / 1024;
    let r: i128 = wide % 1024;
    let f: i128 = if r < 0 {
        q - 1
    } else {
        q
    };
    f as i64
}

/// The point on the way from `start` to `end` that is reached after `elapsed`
/// of `duration`, moving at constant speed and rounding down.
pub open spec fn lerp(start: int, end: int, elapsed: int, duration: int) -> int {
    start + ((end - start) * elapsed) / duration
}

/// Where a timed move from `start` to `end` stands at time `now`: at `start`
/// until the move begins, at `end` once `duration` has passed, on the way
/// in between.
pub open spec fn value_at(start: int, end: int, start_time: int, duration: int, now: int) -> int {
    if now - start_time >= duration {
        end
    } else if now - start_time <= 0 {
        start
    } else {
        lerp(start, end, now - start_time, duration)
    }
}

/// A point on the way lies between the two ends.
pub proof fn lemma_lerp_between(start: int, end: int, elapsed: int, duration: int)
    requires
        0 <= elapsed <= duration,
        0 < duration,
    ensures
        start <= end ==> start <= lerp(start, end, elapsed, duration) <= end,
        end <= start ==> end <= lerp(start, end, elapsed, duration) <= start,
{
    let d = end - start;
    if d >= 0 {
        assert(0 <= d * elapsed <= d * duration) by (nonlinear_arith)
            requires
                0 <= d,
                0 <= elapsed <= duration,
        ;
        vstd::arithmetic::div_mod::lemma_div_is_ordered(0, d * elapsed, duration);
        vstd::arithmetic::div_mod::lemma_div_is_ordered(d * elapsed, d * duration, duration);
        vstd::arithmetic::div_mod::lemma_div_multiples_vanish(d, duration);
        vstd::arithmetic::div_mod::lemma_div_multiples_vanish(0, duration);
        assert(d * duration == duration * d && duration * 0 == 0) by (nonlinear_arith);
    } else {
        assert(d * duration <= d * elapsed <= 0) by (nonlinear_arith)
            requires
                d < 0,
                0 <= elapsed <= duration,
        ;
        vstd::arithmetic::div_mod::lemma_div_is_ordered(d * elapsed, 0, duration);
        vstd::arithmetic::div_mod::lemma_div_is_ordered(d * duration, d * elapsed, duration);
        vstd::arithmetic::div_mod::lemma_div_multiples_vanish(d, duration);
        vstd::arithmetic::div_mod::lemma_div_multiples_vanish(0, duration);
        assert(d * duration == duration * d && duration * 0 == 0) by (nonlinear_arith);
    }
}

/// Rounded-down quotient and remainder of a number that is not positive,
/// from the quotient and remainder of its magnitude.
pub proof fn lemma_floor_div_neg(a: int, d: int)
    requires
        0 <= a,
        0 < d,
    ensures
        (-a) / d == (if a % d == 0 {
            -(a / d)
        } else {
            -(a / d) - 1
        }),
        (-a) % d == (if a % d == 0 {
            0
        } else {
            d - a % d
        }),
{
    let q = a / d;
    let r = a % d;
    vstd::arithmetic::div_mod::lemma_fundamental_div_mod(a, d);
    vstd::arithmetic::div_mod::lemma_mod_bound(a, d);
    if r == 0 {
        assert(-a == (-q) * d + 0) by (nonlinear_arith)
            requires
                a == d * q + r,
                r == 0,
        ;
        vstd::arithmetic::div_mod::lemma_fundamental_div_mod_converse(-a, d, -q, 0);
    } else {
        assert(-a == (-q - 1) * d + (d - r)) by (nonlinear_arith)
            requires
                a == d * q + r,
        ;
        vstd::arithmetic::div_mod::lemma_fundamental_div_mod_converse(-a, d, -q - 1, d - r);
    }
}

/// A timed move never turns back: at a later time it stands at least as far
/// from `start`, towards `end`, as at an earlier one; and from `duration`
/// after its start on it stands at `end`.
pub proof fn lemma_value_at_monotonic(
    start: int,
    end: int,
    start_time: int,
    duration: int,
    t1: int,
    t2: int,
)
    requires
        0 < duration,
        t1 <= t2,
    ensures
        start <= end ==> start <= value_at(start, end, start_time, duration, t1) <= value_at(
            start,
            end,
            start_time,
            duration,
            t2,
        ) <= end,
        end <= start ==> end <= value_at(start, end, start_time, duration, t2) <= value_at(
            start,
            end,
            start_time,
            duration,
            t1,
        ) <= start,
        t2 >= start_time + duration ==> value_at(start, end, start_time, duration, t2) == end,
{
    let d = end - start;
    let e1 = if t1 - start_time <= 0 {
        0
    } else if t1 - start_time >= duration {
        duration
    } else {
        t1 - start_time
    };
    let e2 = if t2 - start_time <= 0 {
        0
    } else if t2 - start_time >= duration {
        duration
    } else {
        t2 - start_time
    };
    assert(value_at(start, end, start_time, duration, t1) == lerp(start, end, e1, duration)
        && value_at(start, end, start_time, duration, t2) == lerp(start, end, e2, duration)) by {
        vstd::arithmetic::div_mod::lemma_div_multiples_vanish(d, duration);
        vstd::arithmetic::div_mod::lemma_div_multiples_vanish(0, duration);
        assert(d * duration == duration * d && duration * 0 == 0 && d * 0 == 0)
            by (nonlinear_arith);
    }
    lemma_lerp_between(start, end, e1, duration);
    lemma_lerp_between(start, end, e2, duration);
    if d >= 0 {
        assert(d * e1 <= d * e2) by (nonlinear_arith)
            requires
                0 <= d,
                e1 <= e2,
        ;
        vstd::arithmetic::div_mod::lemma_div_is_ordered(d * e1, d * e2, duration);
    } else {
        assert(d * e2 <= d * e1) by (nonlinear_arith)
            requires
                d < 0,
                e1 <= e2,
        ;
        vstd::arithmetic::div_mod::lemma_div_is_ordered(d * e2, d * e1, duration);
    }
}

/// Evaluates a timed move from `start` to `end` at time `now`.
pub fn evaluate(start: i64, end: i64, start_time: i64, duration: i64, now: i64) -> (v: i64)
    requires
        0 < duration,
        -MAX_OFFSET <= start <= MAX_OFFSET,
        -MAX_OFFSET <= end <= MAX_OFFSET,
    ensures
        v == value_at(start as int, end as int, start_time as int, duration as int, now as int),
        start <= end ==> start <= v <= end,
        end <= start ==> end <= v <= start,
{
    let elapsed: i128 = (now as i128) - (start_time as i128);
    if elapsed >= duration as i128 {
        return end;
    }
    if elapsed <= 0 {
        return start;
    }
    proof {
        lemma_lerp_between(start as int, end as int, elapsed as int, duration as int);
    }
    if end >= start {
        let d: i128 = (end as i128) - (start as i128);
        assert(0 <= (d as int) * (elapsed as int) <= 0x2000_0000_0000_0000
            * 0x8000_0000_0000_0000) by (nonlinear_arith)
            requires
                0 <= d <= 0x2000_0000_0000_0000,
                0 <= elapsed <= 0x8000_0000_0000_0000,
        ;
        let wide: i128 = d * elapsed;
        let step: i128 = wide / (duration as i128);
        ((start as i128) + step) as i64
    } else {
        let d: i128 = (start as i128) - (end as i128);
        assert(0 <= (d as int) * (elapsed as int) <= 0x2000_0000_0000_0000
            * 0x8000_0000_0000_0000) by (nonlinear_arith)
            requires
                0 <= d <= 0x2000_0000_0000_0000,
                0 <= elapsed <= 0x8000_0000_0000_0000,
        ;
        let wide: i128 = d * elapsed;
        let q: i128 = wide / (duration as i128);
        let r: i128 = wide % (duration as i128);
        proof {
            lemma_floor_div_neg(wide as int, duration as int);
            assert((end - start) * elapsed == -(d * elapsed)) by (nonlinear_arith)
                requires
                    d == start - end,
            ;
        }
        let step: i128 = if r == 0 {
            -q
        } else {
            -q - 1
        };
        ((start as i128) + step) as i64
    }
}

} // verus!
