//! Size of the drawing surfaces of a grid and the scroll animation.

use crate::metrics::CellMetrics;
use crate::units::{ceil_px, ceil_to_px, clamp_i32, evaluate, to_i32, value_at, MAX_GRID,
    MAX_OFFSET};
use vstd::prelude::*;

verus! {

/// A scroll animation in progress: the vertical offset runs from `start` to
/// `end`, both in units, from `start_time` on and for `duration`
/// microseconds.
#[derive(Clone, Copy, Debug, PartialEq, Eq, Structural)]
pub struct ScrollAnimation {
    pub start: i64,
    pub end: i64,
    pub start_time: i64,
    pub duration: i64,
}

/// Geometry and scroll state of the three drawing surfaces of a grid (front,
/// back and the composited one): their common size in pixels, the vertical
/// offset at which content is currently shown, and the animation that moves
/// that offset, if one runs.
#[derive(Clone, Copy, Debug, PartialEq, Eq, Structural)]
pub struct Surfaces {
    pub width: i32,
    pub height: i32,
    /// Vertical offset in units.
    pub offset_y: i64,
    pub offset_y_anim: Option<ScrollAnimation>,
}

/// Length of an animation of `duration_ms` milliseconds in microseconds, as
/// far as `i64` reaches.
pub open spec fn duration_us(duration_ms: int) -> int {
    if duration_ms * 1000 > i64::MAX {
        i64::MAX as int
    } else {
        duration_ms * 1000
    }
}

/// Pixels needed for `count` cells of `size` units each, as an `i32`.
pub open spec fn surface_extent(count: int, size: int) -> int {
    clamp_i32(ceil_px(count * size))
}

impl Surfaces {
    /// Offsets are in range and a running animation takes time.
    pub open spec fn wf(&self) -> bool {
        &&& -MAX_OFFSET <= self.offset_y <= MAX_OFFSET
        &&& self.offset_y_anim.is_some() ==> {
            &&& -MAX_OFFSET <= self.offset_y_anim.unwrap().start <= MAX_OFFSET
            &&& -MAX_OFFSET <= self.offset_y_anim.unwrap().end <= MAX_OFFSET
            &&& self.offset_y_anim.unwrap().duration > 0
        }
    }

    /// The surfaces after a tick at time `now`: the offset stands where the
    /// running animation puts it, and an animation whose time is up is gone.
    pub open spec fn ticked(self, now: int) -> Surfaces {
        match self.offset_y_anim {
            Some(a) => Surfaces {
                offset_y: value_at(
                    a.start as int,
                    a.end as int,
                    a.start_time as int,
                    a.duration as int,
                    now,
                ) as i64,
                offset_y_anim: if now - a.start_time >= a.duration {
                    None
                } else {
                    Some(a)
                },
                ..self
            },
            None => self,
        }
    }

    /// Surfaces for a grid of `rows` by `cols` cells: wide and high enough to
    /// hold every cell, at rest with no offset.
    pub fn new(cm: &CellMetrics, rows: usize, cols: usize) -> (s: Surfaces)
        requires
            cm.wf(),
            rows <= MAX_GRID,
            cols <= MAX_GRID,
        ensures
            s.wf(),
            s.width == surface_extent(cols as int, cm.width as int),
            s.height == surface_extent(rows as int, cm.height as int),
            s.offset_y == 0,
            s.offset_y_anim.is_none(),
    {
        assert(-0x200_0000_0000_0000 <= (cols as int) * (cm.width as int) <= 0x200_0000_0000_0000
            && -0x200_0000_0000_0000 <= (rows as int) * (cm.height as int)
            <= 0x200_0000_0000_0000) by (nonlinear_arith)
            requires
                0 <= cols <= 0x100_0000,
                0 <= rows <= 0x100_0000,
                -0x2_0000_0000 <= cm.width <= 0x2_0000_0000,
                -0x2_0000_0000 <= cm.height <= 0x2_0000_0000,
        ;
        let w: i64 = (cols as i64) * cm.width;
        let h: i64 = (rows as i64) * cm.height;
        Surfaces {
            width: to_i32(ceil_to_px(w)),
            height: to_i32(ceil_to_px(h)),
            offset_y: 0,
            offset_y_anim: None,
        }
    }

    /// Starts to move the vertical offset from 0 to `y` at time `frame_time`,
    /// over `duration_ms` milliseconds. With a duration of 0 or less the
    /// offset is `y` at once and nothing is animated.
    pub fn set_animation(&mut self, y: i64, duration_ms: i64, frame_time: i64)
        requires
            -MAX_OFFSET <= y <= MAX_OFFSET,
        ensures
            final(self).wf(),
            final(self).width == old(self).width,
            final(self).height == old(self).height,
            duration_ms <= 0 ==> final(self).offset_y == y && final(self).offset_y_anim.is_none(),
            duration_ms > 0 ==> final(self).offset_y == 0 && final(self).offset_y_anim == Some(
                (ScrollAnimation {
                    start: 0,
                    end: y,
                    start_time: frame_time,
                    duration: duration_us(duration_ms as int) as i64,
                }),
            ),
    {
        if duration_ms <= 0 {
            self.offset_y = y;
            self.offset_y_anim = None;
        } else {
            let duration: i64 = if duration_ms > 9223372036854775 {
                9223372036854775807
            } else {
                duration_ms * 1000
            };
            self.offset_y = 0;
            self.offset_y_anim = Some(
                ScrollAnimation { start: 0, end: y, start_time: frame_time, duration },
            );
        }
    }

    /// Advances the scroll animation to time `frame_time` and says whether
    /// what is shown changed. The offset is where the animation stands at
    /// that time; an animation whose time is up ends with the offset exactly
    /// at its target.
    pub fn tick(&mut self, frame_time: i64) -> (changed: bool)
        requires
            old(self).wf(),
        ensures
            final(self).wf(),
            changed == old(self).offset_y_anim.is_some(),
            *final(self) == old(self).ticked(frame_time as int),
    {
        match self.offset_y_anim {
            Some(a) => {
                self.offset_y = evaluate(a.start, a.end, a.start_time, a.duration, frame_time);
                if (frame_time as i128) - (a.start_time as i128) >= (a.duration as i128) {
                    self.offset_y_anim = None;
                }
                true
            },
            None => false,
        }
    }
}

/// A second tick at the same time changes nothing: the offset is a matter
/// of the time alone, not of how often the surfaces are ticked.
pub proof fn lemma_tick_idempotent(s: Surfaces, now: int)
    ensures
        s.ticked(now).ticked(now) == s.ticked(now),
{
}

} // verus!
