//! The text cursor: its position, its moves between cells and its blinking.

use crate::color::Color;
use crate::metrics::CellMetrics;
use crate::units::{
    clamp_i32, evaluate, lemma_floor_div_neg, to_i32, trunc_px, trunc_to_px, value_at, MAX_GRID,
};
use vstd::prelude::*;

verus! {

/// Largest row or column position, in units, that a cursor takes.
pub const MAX_POS: i64 = 0x4_0000_0000;

/// Time a cursor takes to move to a new cell, in microseconds.
pub const MOVE_DURATION: i64 = 100_000;

/// Blink phase at which a cycle ends: phases run over `0..FULL_PHASE`, the
/// first half fading in, the second fading out.
pub const FULL_PHASE: i64 = 2048;

/// Fully opaque.
pub const OPAQUE: i64 = 1024;

/// A move of the cursor in progress: from `start` to `end`, both (row,
/// column) in units, begun at `start_time` and lasting `duration`
/// microseconds.
#[derive(Clone, Copy, Debug)]
pub struct Animation {
    pub start: (i64, i64),
    pub end: (i64, i64),
    pub start_time: i64,
    pub duration: i64,
}

/// The text cursor: where it is shown, how far into its blink cycle it is,
/// and how it looks.
#[derive(Clone, Copy, Debug)]
pub struct Cursor {
    /// Position shown on screen, (row, column) in units; between cells while
    /// the cursor moves. `None` until the cursor is first placed.
    pub pos: Option<(i64, i64)>,
    /// Whether the cursor jumps to a new cell instead of sliding there.
    pub disable_animation: bool,
    /// The move in progress, if the cursor is moving.
    pub animation: Option<Animation>,
    /// Blink phase, in `0..=FULL_PHASE`.
    pub alpha: i64,
    /// Half the length of a blink cycle in milliseconds; 0 for a cursor that
    /// does not blink.
    pub blink_on: u64,
    /// Part of the cell's width that the cursor covers, in units of 1/1024.
    pub cell_percentage: i64,
    pub color: Color,
}

/// Whether `p` is a (row, column) position inside the range a cursor takes.
pub open spec fn pos_in_range(p: (i64, i64)) -> bool {
    0 <= p.0 <= MAX_POS && 0 <= p.1 <= MAX_POS
}

/// Length of a blink cycle in microseconds.
pub open spec fn blink_period(blink_on: int) -> int {
    2000 * blink_on
}

/// Blink phase at time `now` of a cursor that blinks: a sawtooth that rises
/// from 0 to `FULL_PHASE` over each cycle.
pub open spec fn blink_phase(blink_on: int, now: int) -> int {
    ((now % blink_period(blink_on)) * 2048) / blink_period(blink_on)
}

/// Opacity that a blink phase is drawn with: the phase itself while fading
/// in, its mirror image while fading out.
pub open spec fn phase_alpha(phase: int) -> int {
    if phase <= 1024 {
        phase
    } else {
        2048 - phase
    }
}

/// Opacity at time `now` of a cursor with blink setting `blink_on`.
pub open spec fn alpha_at(blink_on: int, now: int) -> int {
    if blink_on == 0 {
        1024
    } else {
        phase_alpha(blink_phase(blink_on, now))
    }
}

/// Where a move stands at time `now`.
pub open spec fn position_at(a: Animation, now: int) -> (i64, i64) {
    (
        value_at(a.start.0 as int, a.end.0 as int, a.start_time as int, a.duration as int, now)
            as i64,
        value_at(a.start.1 as int, a.end.1 as int, a.start_time as int, a.duration as int, now)
            as i64,
    )
}

/// The blink phase of a blinking cursor stays within one cycle.
pub proof fn lemma_blink_phase_bounds(blink_on: int, now: int)
    requires
        blink_on > 0,
    ensures
        0 <= blink_phase(blink_on, now) < 2048,
{
    let p = blink_period(blink_on);
    let m = now % p;
    vstd::arithmetic::div_mod::lemma_mod_bound(now, p);
    let x = m * 2048;
    vstd::arithmetic::div_mod::lemma_fundamental_div_mod(x, p);
    vstd::arithmetic::div_mod::lemma_mod_bound(x, p);
    assert(0 <= x / p < 2048) by (nonlinear_arith)
        requires
            x == p * (x / p) + x % p,
            0 <= x % p < p,
            0 <= x < 2048 * p,
            p > 0,
    ;
}

/// The cursor's opacity never leaves the range from transparent to opaque,
/// at any time and for any blink setting; a cursor that does not blink is
/// opaque throughout.
pub proof fn lemma_alpha_bounded(blink_on: u64, now: i64)
    ensures
        0 <= alpha_at(blink_on as int, now as int) <= 1024,
        blink_on == 0 ==> alpha_at(blink_on as int, now as int) == 1024,
{
    if blink_on != 0 {
        lemma_blink_phase_bounds(blink_on as int, now as int);
    }
}

/// Adding whole multiples of the divisor to a number adds as many to the
/// quotient.
proof fn lemma_div_shift(x: int, p: int, k: int)
    requires
        p > 0,
    ensures
        (x + k * p) / p == x / p + k,
{
    vstd::arithmetic::div_mod::lemma_fundamental_div_mod(x, p);
    vstd::arithmetic::div_mod::lemma_mod_bound(x, p);
    let q = x / p;
    let r = x % p;
    assert(x + k * p == (q + k) * p + r) by (nonlinear_arith)
        requires
            x == p * q + r,
    ;
    vstd::arithmetic::div_mod::lemma_fundamental_div_mod_converse(x + k * p, p, q + k, r);
}

/// The opacity of a blinking cursor has no jumps: from one microsecond to
/// the next it changes by no more than 2 parts in 1024, also where one
/// blink cycle ends and the next begins.
pub proof fn lemma_alpha_continuous(blink_on: u64, now: int)
    requires
        blink_on != 0,
    ensures
        -2 <= alpha_at(blink_on as int, now + 1) - alpha_at(blink_on as int, now) <= 2,
{
    let b = blink_on as int;
    let p = blink_period(b);
    let m = now % p;
    let d = now / p;
    vstd::arithmetic::div_mod::lemma_fundamental_div_mod(now, p);
    vstd::arithmetic::div_mod::lemma_mod_bound(now, p);
    lemma_blink_phase_bounds(b, now);
    lemma_blink_phase_bounds(b, now + 1);
    let x = m * 2048;
    if m + 1 < p {
        assert(now + 1 == d * p + (m + 1)) by (nonlinear_arith)
            requires
                now == p * d + m,
        ;
        vstd::arithmetic::div_mod::lemma_fundamental_div_mod_converse(now + 1, p, d, m + 1);
        assert((m + 1) * 2048 == x + 2048) by (nonlinear_arith)
            requires
                x == m * 2048,
        ;
        lemma_div_shift(x, p, 2);
        vstd::arithmetic::div_mod::lemma_div_is_ordered(x, x + 2048, p);
        vstd::arithmetic::div_mod::lemma_div_is_ordered(x + 2048, x + 2 * p, p);
    } else {
        assert(now + 1 == (d + 1) * p + 0) by (nonlinear_arith)
            requires
                now == p * d + m,
                m + 1 == p,
        ;
        vstd::arithmetic::div_mod::lemma_fundamental_div_mod_converse(now + 1, p, d + 1, 0);
        assert((0int * 2048) / p == 0) by {
            vstd::arithmetic::div_mod::lemma_div_multiples_vanish(0, p);
            assert(p * 0 == 0);
        }
        assert(x == 0 + 2046 * p + (2 * p - 2048)) by (nonlinear_arith)
            requires
                x == m * 2048,
                m + 1 == p,
        ;
        lemma_div_shift(2 * p - 2048, p, 2046);
        vstd::arithmetic::div_mod::lemma_div_is_ordered(0, 2 * p - 2048, p);
        assert(0int / p == 0) by {
            vstd::arithmetic::div_mod::lemma_div_multiples_vanish(0, p);
            assert(p * 0 == 0);
        }
    }
}

/// A second tick at the same time changes nothing: where the cursor is
/// shown and how far it is into its blink cycle are matters of the time
/// alone, not of how often the cursor is ticked.
pub proof fn lemma_tick_idempotent(c: Cursor, now: int)
    ensures
        c.ticked(now).ticked(now) == c.ticked(now),
{
}

impl Default for Cursor {
    /// A cursor that has not been placed yet: it does not blink, slides when
    /// moved, and covers nothing of its cell.
    fn default() -> (c: Cursor)
        ensures
            c.wf(),
            c.pos.is_none(),
            !c.disable_animation,
            c.animation.is_none(),
            c.alpha == 0,
            c.blink_on == 0,
            c.cell_percentage == 0,
            c.color == (Color { r: 0, g: 0, b: 0 }),
    {
        Cursor {
            pos: None,
            disable_animation: false,
            animation: None,
            alpha: 0,
            blink_on: 0,
            cell_percentage: 0,
            color: Color { r: 0, g: 0, b: 0 },
        }
    }
}

impl Cursor {
    /// Positions are in range, a move in progress has a place to move from
    /// and takes time, the blink phase is within a cycle, and the cursor
    /// covers between nothing and all of its cell.
    pub open spec fn wf(&self) -> bool {
        &&& self.pos.is_some() ==> pos_in_range(self.pos.unwrap())
        &&& self.animation.is_some() ==> {
            &&& self.pos.is_some()
            &&& pos_in_range(self.animation.unwrap().start)
            &&& pos_in_range(self.animation.unwrap().end)
            &&& self.animation.unwrap().duration > 0
        }
        &&& 0 <= self.alpha <= FULL_PHASE
        &&& 0 <= self.cell_percentage <= 1024
    }

    /// Size (width, height), in pixels, of the surface that the cursor is
    /// drawn into before it is put on screen: two cells wide, so that it
    /// covers a double-width cell, and a cell and an ascent high; fractions
    /// of a pixel are cut off.
    pub fn surface_size(cm: &CellMetrics) -> (size: (i32, i32))
        requires
            cm.wf(),
        ensures
            size.0 == clamp_i32(trunc_px(cm.width * 2)),
            size.1 == clamp_i32(trunc_px(cm.height + cm.ascent)),
    {
        (to_i32(trunc_to_px(cm.width * 2)), to_i32(trunc_to_px(cm.height + cm.ascent)))
    }

    /// The cursor after it is sent to cell (`row`, `col`) at time `now`.
    pub open spec fn sent_to(self, row: u64, col: u64, now: i64) -> Cursor {
        let target = ((row * 1024) as i64, (col * 1024) as i64);
        if self.pos.is_none() || self.disable_animation {
            Cursor { pos: Some(target), animation: None, ..self }
        } else {
            Cursor {
                animation: Some(
                    Animation {
                        start: self.pos.unwrap(),
                        end: target,
                        start_time: now,
                        duration: MOVE_DURATION,
                    },
                ),
                ..self
            }
        }
    }

    /// The cursor after a tick at time `now`: shown where its move stands,
    /// the move gone once its time is up, and, if it blinks, in the blink
    /// phase of that time.
    pub open spec fn ticked(self, now: int) -> Cursor {
        Cursor {
            pos: match self.animation {
                Some(a) => Some(position_at(a, now)),
                None => self.pos,
            },
            animation: match self.animation {
                Some(a) => if now - a.start_time >= a.duration {
                    None
                } else {
                    Some(a)
                },
                None => None,
            },
            alpha: if self.blink_on == 0 {
                self.alpha
            } else {
                blink_phase(self.blink_on as int, now) as i64
            },
            ..self
        }
    }

    /// Sends the cursor to cell (`row`, `col`) at time `frame_time`. A cursor
    /// that has no position yet, or whose animation is disabled, is there at
    /// once; otherwise it starts to slide from where it is shown.
    pub fn goto(&mut self, row: u64, col: u64, frame_time: i64)
        requires
            old(self).wf(),
            row <= MAX_GRID,
            col <= MAX_GRID,
        ensures
            final(self).wf(),
            *final(self) == old(self).sent_to(row, col, frame_time),
    {
        let target: (i64, i64) = ((row * 1024) as i64, (col * 1024) as i64);
        match self.pos {
            Some(from) => {
                if self.disable_animation {
                    self.pos = Some(target);
                    self.animation = None;
                } else {
                    self.animation = Some(
                        Animation {
                            start: from,
                            end: target,
                            start_time: frame_time,
                            duration: MOVE_DURATION,
                        },
                    );
                }
            },
            None => {
                self.pos = Some(target);
                self.animation = None;
            },
        }
    }

    /// Advances the cursor to time `frame_time`: a moving cursor is shown
    /// where its move stands, and stops once the move is over; a blinking
    /// cursor takes the blink phase of that time.
    pub fn tick(&mut self, frame_time: i64)
        requires
            old(self).wf(),
        ensures
            final(self).wf(),
            *final(self) == old(self).ticked(frame_time as int),
    {
        self.blink(frame_time);
        self.animate_position(frame_time);
    }

    /// Position shown on screen, (row, column) in units, if the cursor has
    /// been placed. Between cells while the cursor moves: round up to find
    /// the cell the cursor is heading for, down to find where to paint.
    pub fn get_position(&self) -> (p: Option<(i64, i64)>)
        ensures
            p == self.pos,
    {
        self.pos
    }

    /// Opacity to draw the cursor with, from 0 (transparent) to 1024
    /// (opaque).
    pub fn blink_alpha(&self) -> (a: i64)
        requires
            self.wf(),
        ensures
            a == (if self.blink_on == 0 {
                1024
            } else {
                phase_alpha(self.alpha as int)
            }),
            0 <= a <= 1024,
    {
        if self.blink_on == 0 {
            OPAQUE
        } else if self.alpha <= OPAQUE {
            self.alpha
        } else {
            FULL_PHASE - self.alpha
        }
    }

    fn blink(&mut self, frame_time: i64)
        requires
            old(self).wf(),
        ensures
            final(self).wf(),
            *final(self) == (Cursor {
                alpha: old(self).ticked(frame_time as int).alpha,
                ..*old(self)
            }),
    {
        if self.blink_on == 0 {
            return ;
        }
        let period: i128 = 2000 * (self.blink_on as i128);
        let m: i128 = if frame_time >= 0 {
            (frame_time as i128) % period
        } else {
            let a: i128 = -(frame_time as i128);
            let r: i128 = a % period;
            proof {
                lemma_floor_div_neg(a as int, period as int);
            }
            if r == 0 {
                0
            } else {
                period - r
            }
        };
        proof {
            lemma_blink_phase_bounds(self.blink_on as int, frame_time as int);
            vstd::arithmetic::div_mod::lemma_mod_bound(frame_time as int, period as int);
        }
        let phase: i128 = (m * 2048) / period;
        self.alpha = phase as i64;
    }

    fn animate_position(&mut self, frame_time: i64)
        requires
            old(self).wf(),
        ensures
            final(self).wf(),
            *final(self) == (Cursor {
                pos: old(self).ticked(frame_time as int).pos,
                animation: old(self).ticked(frame_time as int).animation,
                ..*old(self)
            }),
    {
        if let Some(a) = self.animation {
            let row = evaluate(a.start.0, a.end.0, a.start_time, a.duration, frame_time);
            let col = evaluate(a.start.1, a.end.1, a.start_time, a.duration, frame_time);
            self.pos = Some((row, col));
            if (frame_time as i128) - (a.start_time as i128) >= (a.duration as i128) {
                self.animation = None;
            }
        }
    }
}

} // verus!
