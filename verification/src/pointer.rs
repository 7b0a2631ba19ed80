//! Events of the pointing device over a grid.

use crate::grid::{Grid, MouseButton, ScrollDirection};
use vstd::prelude::*;

verus! {

/// A scroll of the pointing device as the windowing system reports it: a
/// step in one direction, or a smooth scroll by a fraction of a step either
/// way (in units of 1/1024 step), or something else.
#[derive(Clone, Copy, Debug, PartialEq, Eq, Structural)]
pub enum PointerScroll {
    Up,
    Down,
    Left,
    Right,
    Smooth(i64, i64),
    Other,
}

/// Modifier state in which only the middle button is held.
pub const BUTTON2_MASK: u32 = 512;

/// Modifier state in which only the right button is held.
pub const BUTTON3_MASK: u32 = 1024;

/// One whole scroll step, in units.
pub const STEP: i64 = 1024;

/// The sum of two numbers, as far as `i64` reaches.
pub open spec fn clamped_sum(a: int, b: int) -> int {
    if a + b > i64::MAX {
        i64::MAX as int
    } else if a + b < i64::MIN {
        i64::MIN as int
    } else {
        a + b
    }
}

/// Index of the cell that holds position `pos`, for cells `size` long; a
/// position before the first cell counts as in it.
pub open spec fn cell_index(pos: int, size: int) -> int {
    if pos < 0 {
        0
    } else {
        pos / size
    }
}

/// What a smooth scroll by (`dx`, `dy`) does to the deltas gathered so far:
/// the new gathered deltas and the direction to scroll in once a whole step
/// has come together. Vertical movement goes first.
pub open spec fn smooth_step(prev: (i64, i64), dx: i64, dy: i64) -> ((i64, i64), Option<
    ScrollDirection,
>) {
    let x = clamped_sum(prev.0 as int, dx as int) as i64;
    let y = clamped_sum(prev.1 as int, dy as int) as i64;
    if y <= -STEP {
        ((x, 0), Some(ScrollDirection::Up))
    } else if y >= STEP {
        ((x, 0), Some(ScrollDirection::Down))
    } else if x <= -STEP {
        ((0, y), Some(ScrollDirection::Left))
    } else if x >= STEP {
        ((0, y), Some(ScrollDirection::Right))
    } else {
        ((x, y), None)
    }
}

/// The button that a press or release of button number `button` means.
pub open spec fn button_of(button: u32) -> MouseButton {
    if button == 3 {
        MouseButton::Right
    } else if button == 2 {
        MouseButton::Middle
    } else {
        MouseButton::Left
    }
}

/// The button that a drag with modifier state `state` is made with.
pub open spec fn drag_button_of(state: u32) -> MouseButton {
    if state == BUTTON3_MASK {
        MouseButton::Right
    } else if state == BUTTON2_MASK {
        MouseButton::Middle
    } else {
        MouseButton::Left
    }
}

fn sat_add(a: i64, b: i64) -> (s: i64)
    ensures
        s == clamped_sum(a as int, b as int),
{
    let wide: i128 = (a as i128) + (b as i128);
    if wide > 9223372036854775807 {
        9223372036854775807
    } else if wide < -9223372036854775808 {
        -9223372036854775808
    } else {
        wide as i64
    }
}

fn cell_under(pos: i64, size: i64) -> (i: u64)
    requires
        size > 0,
    ensures
        i == cell_index(pos as int, size as int),
{
    if pos < 0 {
        0
    } else {
        (pos / size) as u64
    }
}

impl Grid {
    /// Handles a scroll of the pointing device at position `pos` ((x, y) in
    /// units): says in which direction and over which cell (row, column) to
    /// scroll, if at all. Smooth scrolls are gathered until a whole step has
    /// come together.
    pub fn scroll_event(&mut self, scroll: PointerScroll, pos: (i64, i64)) -> (ev: Option<
        (ScrollDirection, u64, u64),
    >)
        requires
            old(self).context.cell_metrics.width > 0,
            old(self).context.cell_metrics.height > 0,
        ensures
            final(self).id == old(self).id,
            final(self).context == old(self).context,
            final(self).drag_position == old(self).drag_position,
            final(self).scroll_delta == (match scroll {
                PointerScroll::Smooth(dx, dy) => smooth_step(old(self).scroll_delta, dx, dy).0,
                _ => old(self).scroll_delta,
            }),
            ev == (match (match scroll {
                PointerScroll::Up => Some(ScrollDirection::Up),
                PointerScroll::Down => Some(ScrollDirection::Down),
                PointerScroll::Left => Some(ScrollDirection::Left),
                PointerScroll::Right => Some(ScrollDirection::Right),
                PointerScroll::Smooth(dx, dy) => smooth_step(old(self).scroll_delta, dx, dy).1,
                PointerScroll::Other => None,
            }) {
                Some(dir) => Some(
                    (
                        dir,
                        cell_index(pos.1 as int, old(self).context.cell_metrics.height as int)
                            as u64,
                        cell_index(pos.0 as int, old(self).context.cell_metrics.width as int)
                            as u64,
                    ),
                ),
                None => None,
            }),
    {
        let dir = match scroll {
            PointerScroll::Right => ScrollDirection::Right,
            PointerScroll::Left => ScrollDirection::Left,
            PointerScroll::Up => ScrollDirection::Up,
            PointerScroll::Down => ScrollDirection::Down,
            PointerScroll::Smooth(smooth_dx, smooth_dy) => {
                // Smooth scrolling. During scroll, many little deltas are
                // gathered in scroll_delta. Once a delta reaches a whole step
                // either way, it is reset and the scroll is made effective.
                let (prev_dx, prev_dy) = self.scroll_delta;
                let dy = sat_add(prev_dy, smooth_dy);
                let dx = sat_add(prev_dx, smooth_dx);
                let (new_delta, dir) = if dy <= -STEP {
                    ((dx, 0), Some(ScrollDirection::Up))
                } else if dy >= STEP {
                    ((dx, 0), Some(ScrollDirection::Down))
                } else if dx <= -STEP {
                    ((0, dy), Some(ScrollDirection::Left))
                } else if dx >= STEP {
                    ((0, dy), Some(ScrollDirection::Right))
                } else {
                    ((dx, dy), None)
                };
                self.scroll_delta = new_delta;
                match dir {
                    Some(dir) => dir,
                    None => {
                        return None;
                    },
                }
            },
            PointerScroll::Other => {
                return None;
            },
        };
        let col = cell_under(pos.0, self.context.cell_metrics.width);
        let row = cell_under(pos.1, self.context.cell_metrics.height);
        Some((dir, row, col))
    }

    /// Handles a move of the pointer to position `pos` ((x, y) in units)
    /// with modifier state `state`: says with which button and over which
    /// cell (row, column) a drag goes on, if the pointer came to another
    /// cell than the one it was last seen over.
    pub fn motion_event(&mut self, state: u32, pos: (i64, i64)) -> (ev: Option<
        (MouseButton, u64, u64),
    >)
        requires
            old(self).context.cell_metrics.width > 0,
            old(self).context.cell_metrics.height > 0,
        ensures
            final(self).id == old(self).id,
            final(self).context == old(self).context,
            final(self).scroll_delta == old(self).scroll_delta,
            final(self).drag_position == (
                cell_index(pos.0 as int, old(self).context.cell_metrics.width as int) as u64,
                cell_index(pos.1 as int, old(self).context.cell_metrics.height as int) as u64,
            ),
            ev == (if final(self).drag_position != old(self).drag_position {
                Some((drag_button_of(state), final(self).drag_position.1,
                    final(self).drag_position.0))
            } else {
                None
            }),
    {
        let button = if state == BUTTON3_MASK {
            MouseButton::Right
        } else if state == BUTTON2_MASK {
            MouseButton::Middle
        } else {
            MouseButton::Left
        };
        let col = cell_under(pos.0, self.context.cell_metrics.width);
        let row = cell_under(pos.1, self.context.cell_metrics.height);
        if self.drag_position.0 != col || self.drag_position.1 != row {
            self.drag_position = (col, row);
            Some((button, row, col))
        } else {
            None
        }
    }

    /// Handles a press or release of button number `button` at position
    /// `pos` ((x, y) in units): says which button it is and over which cell
    /// (row, column).
    pub fn button_event(&self, button: u32, pos: (i64, i64)) -> (ev: (MouseButton, u64, u64))
        requires
            self.context.cell_metrics.width > 0,
            self.context.cell_metrics.height > 0,
        ensures
            ev == (
                button_of(button),
                cell_index(pos.1 as int, self.context.cell_metrics.height as int) as u64,
                cell_index(pos.0 as int, self.context.cell_metrics.width as int) as u64,
            ),
    {
        let button = if button == 3 {
            MouseButton::Right
        } else if button == 2 {
            MouseButton::Middle
        } else {
            MouseButton::Left
        };
        let col = cell_under(pos.0, self.context.cell_metrics.width);
        let row = cell_under(pos.1, self.context.cell_metrics.height);
        (button, row, col)
    }

    /// The number of (rows, columns) of whole cells that fit a drawing area
    /// `w` by `h` pixels.
    pub fn da_resize(&self, w: i32, h: i32) -> (size: (u64, u64))
        requires
            self.context.cell_metrics.width > 0,
            self.context.cell_metrics.height > 0,
        ensures
            size == (
                cell_index(h * 1024, self.context.cell_metrics.height as int) as u64,
                cell_index(w * 1024, self.context.cell_metrics.width as int) as u64,
            ),
    {
        let cols = cell_under((w as i64) * 1024, self.context.cell_metrics.width);
        let rows = cell_under((h as i64) * 1024, self.context.cell_metrics.height);
        (rows, cols)
    }
}

} // verus!
