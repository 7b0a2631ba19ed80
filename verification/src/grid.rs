//! A single grid: line updates, scrolls, repaints and the composition of its
//! surfaces.

use crate::bridge::{area_of, shift_of, GridScrollRegion, ModeInfo};
use crate::color::{Color, HlDefs};
use crate::context::{grid_view, Context};
use crate::error::Error;
use crate::metrics::{Font, FontMetrics, MAX_LINE_SPACE};
use crate::render::{
    as_area, cursor_cell, inverted, paints, segment_rect, Rectangle, ScrollPaint, TextPaint,
};
use crate::row::{
    cleared, default_cell, line_cells, overwrite, segments_of, CellView, GridLineSegment, Segment,
};
use crate::units::{
    ceil_px, ceil_to_px, clamp_i32, floor_px, floor_to_px, to_i32, trunc_px, trunc_to_px, MAX_GRID,
};
use vstd::prelude::*;

verus! {

/// Sizes of a grid: its rows and columns, the size of a cell and of the
/// whole grid in units.
#[derive(Clone, Copy, Debug, PartialEq, Eq, Structural)]
pub struct GridMetrics {
    // Row count in the grid.
    pub rows: usize,
    // Col count in the grid.
    pub cols: usize,
    // Height of a cell.
    pub cell_height: i64,
    // Width of a cell.
    pub cell_width: i64,
    // Height of the whole grid as required by the cell height and rows.
    pub height: i64,
    // Width of the whole grid as required by the cell width and cols.
    pub width: i64,
}

/// Direction of a scroll over the grid.
#[derive(Clone, Copy, Debug, PartialEq, Eq, Structural)]
pub enum ScrollDirection {
    Up,
    Down,
    Right,
    Left,
}

impl ScrollDirection {
    /// The direction's name as the editor spells it.
    pub fn name(&self) -> (s: &'static str)
        ensures
            s@ == match *self {
                ScrollDirection::Up => "up"@,
                ScrollDirection::Down => "down"@,
                ScrollDirection::Right => "right"@,
                ScrollDirection::Left => "left"@,
            },
    {
        match self {
            ScrollDirection::Up => "up",
            ScrollDirection::Down => "down",
            ScrollDirection::Right => "right",
            ScrollDirection::Left => "left",
        }
    }
}

/// A button of the pointing device.
#[derive(Clone, Copy, Debug, PartialEq, Eq, Structural)]
pub enum MouseButton {
    Left,
    Middle,
    Right,
}

impl MouseButton {
    /// The button's name as the editor spells it.
    pub fn name(&self) -> (s: &'static str)
        ensures
            s@ == match *self {
                MouseButton::Left => "left"@,
                MouseButton::Middle => "middle"@,
                MouseButton::Right => "right"@,
            },
    {
        match self {
            MouseButton::Left => "left",
            MouseButton::Middle => "middle",
            MouseButton::Right => "right",
        }
    }
}

/// The quotient of `a` by a positive `b`, rounded towards zero.
pub open spec fn trunc_div(a: int, b: int) -> int {
    if a >= 0 {
        a / b
    } else {
        -((-a) / b)
    }
}

/// A grid after rows `top..bot` are scrolled by `count` rows within columns
/// `left..right`: for a positive `count` each cell of the region takes the
/// cell `count` rows below it, for a negative one the cell `-count` rows
/// above it, and cells that nothing moves into are blank. Cells outside the
/// region stay.
pub open spec fn scrolled(
    g: Seq<Seq<CellView>>,
    top: int,
    bot: int,
    left: int,
    right: int,
    count: int,
) -> Seq<Seq<CellView>> {
    let n = shift_of(top, bot, count);
    Seq::new(
        g.len(),
        |r: int|
            Seq::new(
                g[r].len(),
                |c: int|
                    if top <= r < bot && left <= c < right {
                        if count > 0 {
                            if r < bot - n {
                                g[r + n][c]
                            } else {
                                default_cell()
                            }
                        } else {
                            if r >= top + n {
                                g[r - n][c]
                            } else {
                                default_cell()
                            }
                        }
                    } else {
                        g[r][c]
                    },
            ),
    )
}

/// Scrolling a region by `delta` rows and then back by `-delta` restores
/// every cell, but for the rows of the region that the first scroll pushed
/// content out of: within the region's columns those are blank. For a
/// positive `delta` these are the first rows of the region, for a negative
/// one the last; as many as content moved. Cells outside the region's
/// columns or rows are as they were. The region lies within the grid.
pub proof fn lemma_scroll_round_trip(
    g: Seq<Seq<CellView>>,
    top: int,
    bot: int,
    left: int,
    right: int,
    delta: int,
)
    requires
        0 <= top <= bot <= g.len(),
        0 <= left <= right,
        forall|r: int| top <= r < bot ==> right <= (#[trigger] g[r]).len(),
    ensures
        ({
            let back = scrolled(scrolled(g, top, bot, left, right, delta), top, bot, left, right,
                -delta);
            let n = shift_of(top, bot, delta);
            &&& back.len() == g.len()
            &&& forall|r: int|
                0 <= r < g.len() ==> (#[trigger] back[r]).len() == g[r].len()
            &&& forall|r: int, c: int|
                0 <= r < g.len() && 0 <= c < g[r].len() ==> #[trigger] back[r][c] == (if top <= r
                    < bot && left <= c < right && ((delta > 0 && r < top + n) || (delta < 0 && r
                    >= bot - n)) {
                    default_cell()
                } else {
                    g[r][c]
                })
        }),
{
    let once = scrolled(g, top, bot, left, right, delta);
    let back = scrolled(once, top, bot, left, right, -delta);
    let n = shift_of(top, bot, delta);
    assert(shift_of(top, bot, -delta) == n);
    assert forall|r: int, c: int| 0 <= r < g.len() && 0 <= c < g[r].len()
        implies #[trigger] back[r][c]
        == (if top <= r < bot && left <= c < right && ((delta > 0 && r < top + n) || (delta < 0
        && r >= bot - n)) {
        default_cell()
    } else {
        g[r][c]
    }) by {
        assert(once[r].len() == g[r].len());
        if top <= r < bot && left <= c < right {
            if delta > 0 {
                if r >= top + n {
                    assert(once[r - n].len() == g[r - n].len());
                    assert(back[r][c] == once[r - n][c]);
                }
            } else if delta < 0 {
                if r < bot - n {
                    assert(once[r + n].len() == g[r + n].len());
                    assert(back[r][c] == once[r + n][c]);
                }
            }
        }
    }
}

/// The areas to redraw for a full repaint of row `row` with cells `cells`:
/// the rectangle of each of its segments, in column order.
pub open spec fn row_areas(cells: Seq<CellView>, cw: int, ch: int, row: int) -> Seq<
    (i64, i64, i64, i64),
> {
    let segs = segments_of(cells, 0, cells.len() as int);
    Seq::new(
        segs.len(),
        |i: int| as_area(segment_rect(cw, ch, segs[i].start, segs[i].len, row)),
    )
}

/// The areas to redraw for a full repaint of the first `n` rows of a grid,
/// row by row.
pub open spec fn grid_areas(g: Seq<Seq<CellView>>, cw: int, ch: int, n: int) -> Seq<
    (i64, i64, i64, i64),
>
    decreases n,
{
    if n <= 0 {
        Seq::empty()
    } else {
        grid_areas(g, cw, ch, n - 1) + row_areas(g[n - 1], cw, ch, n - 1)
    }
}

/// A queued area as a pixel rectangle: the origin rounded down, the extent
/// rounded up, each brought into the range of `i32`.
pub open spec fn to_px_area(a: (i64, i64, i64, i64)) -> (i32, i32, i32, i32) {
    (
        clamp_i32(floor_px(a.0 as int)) as i32,
        clamp_i32(floor_px(a.1 as int)) as i32,
        clamp_i32(ceil_px(a.2 as int)) as i32,
        clamp_i32(ceil_px(a.3 as int)) as i32,
    )
}

/// What to draw at a flush: the cell under the cursor in swapped colours
/// into the cursor's own surface, for a cursor that does not blink, and the
/// areas of the drawing area to redraw, in pixels.
pub struct FlushPaint {
    pub cursor_cell: Option<TextPaint>,
    pub areas: Vec<(i32, i32, i32, i32)>,
}

/// How to put the surfaces together for the screen.
#[derive(Clone, Copy, Debug)]
pub struct Composition {
    /// Vertical offset, in units, at which the back surface (the content
    /// before the scroll) is drawn; `None` when no scroll animation runs and
    /// the back surface is not drawn.
    pub back_offset: Option<i64>,
    /// Vertical offset, in units, at which the front surface is drawn.
    pub front_offset: i64,
    /// Where the cursor is drawn, if it is: its rectangle in pixels as (x,
    /// y, width, height), and the width in units of the part of it that is
    /// filled.
    pub cursor: Option<((i32, i32, i32, i32), i64)>,
}

fn reversed(segs: Vec<Segment>) -> (out: Vec<Segment>)
    ensures
        out@.len() == segs@.len(),
        forall|i: int| 0 <= i < out@.len() ==> #[trigger] out@[i] == segs@[segs@.len() - 1 - i],
{
    let mut rest = segs;
    let mut out: Vec<Segment> = Vec::new();
    while rest.len() > 0
        invariant
            rest@.len() + out@.len() == segs@.len(),
            forall|i: int| 0 <= i < rest@.len() ==> #[trigger] rest@[i] == segs@[i],
            forall|i: int| 0 <= i < out@.len() ==> #[trigger] out@[i] == segs@[segs@.len() - 1 - i],
        decreases rest@.len(),
    {
        let last = rest.pop();
        out.push(last.unwrap());
    }
    out
}

/// Handler for the draw event of a grid's drawing area: says how the
/// surfaces of `ctx` go together. While a scroll animation runs, the back
/// surface is drawn first, displaced from the front surface by the offset
/// the animation started at; the front surface is drawn at the current
/// offset; the cursor is drawn on top unless the grid is busy or inactive.
pub fn drawingarea_draw(ctx: &Context) -> (c: Composition)
    requires
        ctx.wf(),
    ensures
        c.front_offset == ctx.surfaces.offset_y,
        c.back_offset == (match ctx.surfaces.offset_y_anim {
            Some(anim) => Some((ctx.surfaces.offset_y - anim.start) as i64),
            None => None,
        }),
        c.cursor == (if !ctx.busy && ctx.active {
            Some((ctx.cursor_rect(), (ctx.cursor_rect().2 * ctx.cursor.cell_percentage) as i64))
        } else {
            None
        }),
{
    let back_offset = match ctx.surfaces.offset_y_anim {
        Some(anim) => Some(ctx.surfaces.offset_y - anim.start),
        None => None,
    };
    // If we're not "busy", draw the cursor.
    let cursor = if !ctx.busy && ctx.active {
        let rect = ctx.get_cursor_rect();
        assert(-0x8000_0000 * 1024 <= (rect.2 as int) * (ctx.cursor.cell_percentage as int)
            <= 0x8000_0000 * 1024) by (nonlinear_arith)
            requires
                -0x8000_0000 <= rect.2 <= 0x8000_0000,
                0 <= ctx.cursor.cell_percentage <= 1024,
        ;
        Some((rect, (rect.2 as i64) * ctx.cursor.cell_percentage))
    } else {
        None
    };
    Composition { back_offset, front_offset: ctx.surfaces.offset_y, cursor }
}

/// Single grid of the editor's UI: the context that events work on, and
/// what is remembered of the pointer between events.
pub struct Grid {
    pub id: i64,
    /// Internal context that is manipulated and used when handling events.
    pub context: Context,
    /// Cell (column, row) that the pointer was last dragged over.
    pub drag_position: (u64, u64),
    /// Smooth scrolling deltas gathered so far, (x, y) in units of 1/1024
    /// step.
    pub scroll_delta: (i64, i64),
}

impl Grid {
    /// A grid with id `id`; the rest as for `Context::new`. The pointer has
    /// not been anywhere yet.
    pub fn new(
        id: i64,
        font: Font,
        line_space: i64,
        cols: usize,
        rows: usize,
        fm: Option<FontMetrics>,
        enable_cursor_animations: bool,
        scroll_speed: i64,
    ) -> (res: Result<Grid, Error>)
        requires
            -MAX_LINE_SPACE <= line_space <= MAX_LINE_SPACE,
            rows <= MAX_GRID,
            cols <= MAX_GRID,
        ensures
            fm.is_none() ==> res is Err && res->Err_0 == Error::GetPangoMetrics,
            fm.is_some() ==> res is Ok && {
                let grid = res->Ok_0;
                &&& grid.id == id
                &&& grid.drag_position == (0u64, 0u64)
                &&& grid.scroll_delta == (0i64, 0i64)
                &&& grid.context.wf()
                &&& grid.context.cell_metrics.measured(fm.unwrap())
                &&& grid.context.cell_metrics.line_space == line_space
                &&& grid.context.cell_metrics.font == font
                &&& grid.context.surfaces.width == crate::surfaces::surface_extent(
                    cols as int,
                    grid.context.cell_metrics.width as int,
                )
                &&& grid.context.surfaces.height == crate::surfaces::surface_extent(
                    rows as int,
                    grid.context.cell_metrics.height as int,
                )
                &&& grid.context.surfaces.offset_y == 0
                &&& grid.context.surfaces.offset_y_anim.is_none()
                &&& grid.context.rows@.len() == 0
                &&& grid.context.cursor.pos.is_none()
                &&& grid.context.cursor.animation.is_none()
                &&& grid.context.cursor.disable_animation == !enable_cursor_animations
                &&& grid.context.cursor.blink_on == 0
                &&& grid.context.cursor.alpha == 0
                &&& grid.context.cursor.cell_percentage == 0
                &&& !grid.context.busy
                &&& !grid.context.active
                &&& grid.context.scroll_speed == scroll_speed
                &&& grid.context.queue_draw_area@.len() == 0
            },
    {
        match Context::new(
            font,
            line_space,
            cols,
            rows,
            fm,
            enable_cursor_animations,
            scroll_speed,
        ) {
            Ok(context) => Ok(
                Grid { id, context, drag_position: (0, 0), scroll_delta: (0, 0) },
            ),
            Err(e) => Err(e),
        }
    }

    /// Position and size, in pixels, of cell (`row`, `col`) relative to the
    /// grid's own origin; fractions of a pixel are cut off.
    pub fn get_rect_for_cell(&self, row: u64, col: u64) -> (r: (i32, i32, i32, i32))
        requires
            self.context.cell_metrics.wf(),
            row <= MAX_GRID,
            col <= MAX_GRID,
        ensures
            r == (
                clamp_i32(trunc_px(col * self.context.cell_metrics.width)) as i32,
                clamp_i32(trunc_px(row * self.context.cell_metrics.height)) as i32,
                clamp_i32(trunc_px(self.context.cell_metrics.width as int)) as i32,
                clamp_i32(trunc_px(self.context.cell_metrics.height as int)) as i32,
            ),
    {
        let cm = &self.context.cell_metrics;
        proof {
            crate::render::lemma_cells_fit(col as int, cm.width as int);
            crate::render::lemma_cells_fit(row as int, cm.height as int);
        }
        let x: i64 = (col as i64) * cm.width;
        let y: i64 = (row as i64) * cm.height;
        (
            to_i32(trunc_to_px(x)),
            to_i32(trunc_to_px(y)),
            to_i32(trunc_to_px(cm.width)),
            to_i32(trunc_to_px(cm.height)),
        )
    }

    /// Sizes of the grid.
    pub fn get_grid_metrics(&self) -> (m: GridMetrics)
        requires
            self.context.wf(),
            self.context.rows@.len() > 0,
        ensures
            m.rows == self.context.rows@.len(),
            m.cols == self.context.cols(),
            m.cell_width == self.context.cell_metrics.width,
            m.cell_height == self.context.cell_metrics.height,
            m.width == m.cols * m.cell_width,
            m.height == m.rows * m.cell_height,
    {
        let rows = self.context.rows.len();
        let cols = self.context.rows[0].len();
        let cell_width = self.context.cell_metrics.width;
        let cell_height = self.context.cell_metrics.height;
        proof {
            crate::render::lemma_cells_fit(cols as int, cell_width as int);
            crate::render::lemma_cells_fit(rows as int, cell_height as int);
        }
        GridMetrics {
            rows,
            cols,
            cell_width,
            cell_height,
            width: (cols as i64) * cell_width,
            height: (rows as i64) * cell_height,
        }
    }

    /// The size (columns, rows) of a grid that fits a drawing area `w` by
    /// `h` pixels with the current cell metrics, counting only the whole
    /// pixels of a cell.
    pub fn calc_size(&self, w: i32, h: i32) -> (size: (i64, i64))
        requires
            clamp_i32(trunc_px(self.context.cell_metrics.width as int)) > 0,
            clamp_i32(trunc_px(self.context.cell_metrics.height as int)) > 0,
        ensures
            size.0 == trunc_div(
                w as int,
                clamp_i32(trunc_px(self.context.cell_metrics.width as int)),
            ),
            size.1 == trunc_div(
                h as int,
                clamp_i32(trunc_px(self.context.cell_metrics.height as int)),
            ),
    {
        let cw: i64 = to_i32(trunc_to_px(self.context.cell_metrics.width)) as i64;
        let ch: i64 = to_i32(trunc_to_px(self.context.cell_metrics.height)) as i64;
        let w: i64 = w as i64;
        let h: i64 = h as i64;
        let cols: i64 = if w >= 0 {
            w / cw
        } else {
            -((-w) / cw)
        };
        let rows: i64 = if h >= 0 {
            h / ch
        } else {
            -((-h) / ch)
        };
        (cols, rows)
    }

    /// Resizes the grid; see `Context::resize`.
    pub fn resize(&mut self, cols: u64, rows: u64, fm: Option<FontMetrics>) -> (res: Result<
        (i64, i64),
        Error,
    >)
        requires
            old(self).context.wf(),
            0 < rows <= MAX_GRID,
            cols <= MAX_GRID,
        ensures
            final(self).id == old(self).id,
            final(self).drag_position == old(self).drag_position,
            final(self).scroll_delta == old(self).scroll_delta,
            fm.is_none() ==> res is Err && res->Err_0 == Error::GetPangoMetrics
                && final(self).context == old(self).context,
            fm.is_some() ==> {
                &&& res is Ok
                &&& final(self).context.wf()
                &&& final(self).context.rows@.len() == rows
                &&& final(self).context.cols() == cols
                &&& grid_view(final(self).context.rows@) == crate::context::resized_grid(
                    grid_view(old(self).context.rows@),
                    rows as int,
                    cols as int,
                )
                &&& final(self).context.cell_metrics.measured(fm.unwrap())
                &&& final(self).context.cell_metrics.line_space
                    == old(self).context.cell_metrics.line_space
                &&& final(self).context.cell_metrics.font == old(self).context.cell_metrics.font
                &&& final(self).context.surfaces.width == crate::surfaces::surface_extent(
                    cols as int,
                    final(self).context.cell_metrics.width as int,
                )
                &&& final(self).context.surfaces.height == crate::surfaces::surface_extent(
                    rows as int,
                    final(self).context.cell_metrics.height as int,
                )
                &&& final(self).context.busy == old(self).context.busy
                &&& final(self).context.active == old(self).context.active
                &&& final(self).context.scroll_speed == old(self).context.scroll_speed
                &&& res->Ok_0.0 == final(self).context.cell_metrics.width * old(self).context.cols()
                &&& res->Ok_0.1
                    == final(self).context.cell_metrics.height * old(self).context.rows@.len()
                &&& final(self).context.surfaces.offset_y == old(self).context.surfaces.offset_y
                &&& final(self).context.surfaces.offset_y_anim
                    == old(self).context.surfaces.offset_y_anim
                &&& final(self).context.cursor == old(self).context.cursor
                &&& final(self).context.queue_draw_area == old(self).context.queue_draw_area
            },
    {
        self.context.resize(cols as usize, rows as usize, fm)
    }

    /// Says whether this grid is the active one: only the active grid shows
    /// a cursor.
    pub fn set_active(&mut self, active: bool)
        ensures
            *final(self) == (Grid {
                context: Context { active, ..old(self).context },
                ..*old(self)
            }),
    {
        self.context.active = active;
    }

    /// Set a new font and line space. This will likely change the cell
    /// metrics. Use `calc_size` to receive the updated size (cols and rows)
    /// of the grid.
    pub fn update_cell_metrics(&mut self, font: Font, line_space: i64,
        fm: Option<FontMetrics>) -> (res:
        Result<(), Error>)
        requires
            old(self).context.wf(),
            -MAX_LINE_SPACE <= line_space <= MAX_LINE_SPACE,
        ensures
            final(self).id == old(self).id,
            final(self).drag_position == old(self).drag_position,
            final(self).scroll_delta == old(self).scroll_delta,
            fm.is_none() ==> res is Err && res->Err_0 == Error::GetPangoMetrics
                && final(self).context == old(self).context,
            fm.is_some() ==> {
                &&& res is Ok
                &&& final(self).context.wf()
                &&& final(self).context.cell_metrics.measured(fm.unwrap())
                &&& final(self).context.cell_metrics.line_space == line_space
                &&& final(self).context.cell_metrics.font == font
                &&& final(self).context.surfaces == old(self).context.surfaces
                &&& final(self).context.rows == old(self).context.rows
                &&& final(self).context.cursor == old(self).context.cursor
                &&& final(self).context.busy == old(self).context.busy
                &&& final(self).context.active == old(self).context.active
                &&& final(self).context.scroll_speed == old(self).context.scroll_speed
                &&& final(self).context.queue_draw_area == old(self).context.queue_draw_area
            },
    {
        self.context.update_metrics(font, line_space, fm)
    }

    /// Get the current line space value.
    pub fn get_line_space(&self) -> (ls: i64)
        ensures
            ls == self.context.cell_metrics.line_space,
    {
        self.context.cell_metrics.line_space
    }

    /// Get a copy of the current font.
    pub fn get_font(&self) -> (f: Font)
        ensures
            f.name@ == self.context.cell_metrics.font.name@,
            f.size == self.context.cell_metrics.font.size,
    {
        self.context.cell_metrics.font.clone()
    }

    /// Takes over what a mode of the editor asks of the cursor: how fast it
    /// blinks and how much of its cell it covers.
    pub fn set_mode(&mut self, mode: &ModeInfo)
        ensures
            *final(self) == (Grid {
                context: Context {
                    cursor: crate::cursor::Cursor {
                        blink_on: mode.blink_on,
                        cell_percentage: mode.cell_percentage,
                        ..old(self).context.cursor
                    },
                    ..old(self).context
                },
                ..*old(self)
            }),
    {
        self.context.cursor.blink_on = mode.blink_on;
        self.context.cursor.cell_percentage = mode.cell_percentage;
    }

    /// Says whether the editor is busy: while it is, no cursor is shown.
    pub fn set_busy(&mut self, busy: bool)
        ensures
            *final(self) == (Grid { context: Context { busy, ..old(self).context }, ..*old(self) }),
    {
        self.context.busy = busy;
    }

    /// Says whether the cursor slides to a new cell or jumps there.
    pub fn enable_cursor_animations(&mut self, enable: bool)
        ensures
            *final(self) == (Grid {
                context: Context {
                    cursor: crate::cursor::Cursor {
                        disable_animation: !enable,
                        ..old(self).context.cursor
                    },
                    ..old(self).context
                },
                ..*old(self)
            }),
    {
        self.context.cursor.disable_animation = !enable;
    }

    /// Sends the cursor to cell (`row`, `col`) at time `frame_time`, and
    /// returns the rectangle, in pixels, at which it is shown now.
    pub fn cursor_goto(&mut self, row: u64, col: u64, frame_time: i64) -> (rect: (i32, i32, i32,
        i32))
        requires
            old(self).context.wf(),
            row <= MAX_GRID,
            col <= MAX_GRID,
        ensures
            final(self).id == old(self).id,
            final(self).drag_position == old(self).drag_position,
            final(self).scroll_delta == old(self).scroll_delta,
            final(self).context.wf(),
            final(self).context.cursor == old(self).context.cursor.sent_to(row, col, frame_time),
            final(self).context.queue_draw_area@ == old(self).context.queue_draw_area@.push(
                crate::context::px_area(old(self).context.cursor_rect()),
            ).push(crate::context::px_area(final(self).context.cursor_rect())),
            final(self).context.surfaces == old(self).context.surfaces,
            final(self).context.cell_metrics == old(self).context.cell_metrics,
            final(self).context.rows == old(self).context.rows,
            final(self).context.busy == old(self).context.busy,
            final(self).context.active == old(self).context.active,
            final(self).context.scroll_speed == old(self).context.scroll_speed,
            rect == final(self).context.cursor_rect(),
    {
        self.context.cursor_goto(row, col, frame_time);
        self.context.get_cursor_rect()
    }

    /// Applies a line update and plans the drawing of the segments it
    /// touched, rightmost first: a character may be drawn wider than its
    /// cell and reach into the cell to its right, so what lies to the left
    /// must be drawn later. Each segment's rectangle is queued for redraw,
    /// in drawing order. An update for a row that the grid does not have
    /// fails and changes nothing.
    pub fn put_line(&mut self, line: GridLineSegment, hl_defs: &HlDefs) -> (res: Result<
        Vec<TextPaint>,
        Error,
    >)
        requires
            old(self).context.wf(),
            line.row < old(self).context.rows@.len() ==> line.col_start + line_cells(line).len()
                <= old(self).context.cols(),
            forall|k: int|
                0 <= k < line.cells@.len() ==> hl_defs@.contains_key(
                    (#[trigger] line.cells@[k]).hl_id,
                ),
        ensures
            line.row >= old(self).context.rows@.len() ==> res is Err && res->Err_0
                == Error::PutLineRowNotFound(line.row) && *final(self) == *old(self),
            line.row < old(self).context.rows@.len() ==> res is Ok && ({
                let row = line.row as int;
                let cw = old(self).context.cell_metrics.width as int;
                let ch = old(self).context.cell_metrics.height as int;
                let cells = overwrite(
                    old(self).context.rows@[row]@,
                    line.col_start as int,
                    line_cells(line),
                );
                let segs = segments_of(
                    cells,
                    line.col_start as int,
                    line.col_start + line_cells(line).len(),
                );
                let n = segs.len() as int;
                &&& final(self).context.wf()
                &&& final(self).id == old(self).id
                &&& final(self).drag_position == old(self).drag_position
                &&& final(self).scroll_delta == old(self).scroll_delta
                &&& final(self).context.surfaces == old(self).context.surfaces
                &&& final(self).context.cell_metrics == old(self).context.cell_metrics
                &&& final(self).context.cursor == old(self).context.cursor
                &&& final(self).context.busy == old(self).context.busy
                &&& final(self).context.active == old(self).context.active
                &&& final(self).context.scroll_speed == old(self).context.scroll_speed
                &&& final(self).context.rows@.len() == old(self).context.rows@.len()
                &&& final(self).context.cols() == old(self).context.cols()
                &&& final(self).context.rows@[row]@ == cells
                &&& forall|j: int|
                    0 <= j < old(self).context.rows@.len() && j != row
                        ==> #[trigger] final(self).context.rows@[j] == old(self).context.rows@[j]
                &&& res->Ok_0@.len() == n
                &&& forall|i: int|
                    0 <= i < n ==> paints(
                        #[trigger] res->Ok_0@[i],
                        &old(self).context.cell_metrics,
                        hl_defs@[segs[n - 1 - i].hl_id],
                        hl_defs,
                        segs[n - 1 - i].text,
                        segment_rect(cw, ch, segs[n - 1 - i].start, segs[n - 1 - i].len, row),
                    )
                &&& final(self).context.queue_draw_area@ == old(self).context.queue_draw_area@
                    + Seq::new(
                    n as nat,
                    |i: int|
                        as_area(
                            segment_rect(cw, ch, segs[n - 1 - i].start, segs[n - 1 - i].len, row),
                        ),
                )
            }),
    {
        if line.row >= self.context.rows.len() as u64 {
            return Err(Error::PutLineRowNotFound(line.row));
        }
        let row: usize = line.row as usize;
        let ghost lo = line.col_start as int;
        let ghost written = line_cells(line);
        let ghost chunks = crate::row::line_views(line.cells@);
        let ghost n_chunks = line.cells@.len() as int;
        let ghost cw = self.context.cell_metrics.width as int;
        let ghost ch = self.context.cell_metrics.height as int;
        assert(self.context.rows@[row as int]@.len() == self.context.cols());
        let affected_segments = self.context.rows[row].update(line);
        let ghost cells = self.context.rows@[row as int]@;
        let ghost segs = crate::row::segment_views(affected_segments@);
        assert(self.context.cols() == old(self).context.cols());
        proof {
            assert forall|i: int| 0 <= i < affected_segments@.len() implies {
                &&& (#[trigger] affected_segments@[i]).start <= MAX_GRID
                &&& affected_segments@[i].len <= MAX_GRID
                &&& hl_defs@.contains_key(affected_segments@[i].hl_id)
            } by {
                assert(segs[i] == affected_segments@[i]@);
                crate::row::lemma_segment_within(cells, lo, lo + written.len(), segs, i);
                assert(crate::row::is_run(cells, segs[i]));
                let at = segs[i].start;
                assert(cells[at].hl_id == segs[i].hl_id);
                assert(cells[at] == written[at - lo]);
                let k = crate::row::lemma_expand_member(chunks, n_chunks, at - lo);
                assert(chunks[k].cell.hl_id == line.cells@[k].hl_id);
            }
        }
        // Drawing the segments in reversed order keeps a character that
        // reaches over to the right from being painted over.
        let in_order = reversed(affected_segments);
        let out = crate::render::put_segments(&mut self.context, hl_defs, in_order, row);
        proof {
            let n = segs.len() as int;
            assert forall|i: int| 0 <= i < n implies in_order@[i]@ == segs[n - 1 - i] by {
                assert(in_order@[i] == affected_segments@[n - 1 - i]);
            }
            assert(self.context.queue_draw_area@ =~= old(self).context.queue_draw_area@ + Seq::new(
                n as nat,
                |i: int|
                    as_area(
                        segment_rect(
                            cw,
                            ch,
                            segs[n - 1 - i].start,
                            segs[n - 1 - i].len,
                            row as int,
                        ),
                    ),
            ));
        }
        Ok(out)
    }

    /// Plans a repaint of the whole grid: for each row, top to bottom, the
    /// drawing of its segments, left to right. The rectangle of each segment
    /// is queued for redraw, in drawing order.
    pub fn redraw(&mut self, hl_defs: &HlDefs) -> (out: Vec<Vec<TextPaint>>)
        requires
            old(self).context.wf(),
            forall|r: int, c: int|
                0 <= r < old(self).context.rows@.len() && 0 <= c < old(self).context.rows@[r]@.len()
                    ==> hl_defs@.contains_key((#[trigger] old(self).context.rows@[r]@[c]).hl_id),
        ensures
            final(self).id == old(self).id,
            final(self).drag_position == old(self).drag_position,
            final(self).scroll_delta == old(self).scroll_delta,
            final(self).context.same_but_queue(&old(self).context),
            out@.len() == old(self).context.rows@.len(),
            forall|r: int|
                0 <= r < out@.len() ==> (#[trigger] out@[r])@.len() == segments_of(
                    old(self).context.rows@[r]@,
                    0,
                    old(self).context.rows@[r]@.len() as int,
                ).len(),
            forall|r: int, i: int|
                0 <= r < out@.len() && 0 <= i < out@[r]@.len() ==> ({
                    let seg = segments_of(
                        old(self).context.rows@[r]@,
                        0,
                        old(self).context.rows@[r]@.len() as int,
                    )[i];
                    paints(
                        #[trigger] out@[r]@[i],
                        &old(self).context.cell_metrics,
                        hl_defs@[seg.hl_id],
                        hl_defs,
                        seg.text,
                        segment_rect(
                            old(self).context.cell_metrics.width as int,
                            old(self).context.cell_metrics.height as int,
                            seg.start,
                            seg.len,
                            r,
                        ),
                    )
                }),
            final(self).context.queue_draw_area@ == old(self).context.queue_draw_area@ + grid_areas(
                grid_view(old(self).context.rows@),
                old(self).context.cell_metrics.width as int,
                old(self).context.cell_metrics.height as int,
                old(self).context.rows@.len() as int,
            ),
    {
        let mut out: Vec<Vec<TextPaint>> = Vec::new();
        let n = self.context.rows.len();
        let ghost g = grid_view(self.context.rows@);
        let ghost cw = self.context.cell_metrics.width as int;
        let ghost ch = self.context.cell_metrics.height as int;
        let mut r: usize = 0;
        while r < n
            invariant
                r <= n,
                n == self.context.rows@.len(),
                self.context.wf(),
                self.id == old(self).id,
                self.drag_position == old(self).drag_position,
                self.scroll_delta == old(self).scroll_delta,
                self.context.same_but_queue(&old(self).context),
                g == grid_view(old(self).context.rows@),
                cw == old(self).context.cell_metrics.width,
                ch == old(self).context.cell_metrics.height,
                forall|r: int, c: int|
                    0 <= r < old(self).context.rows@.len() && 0
                        <= c < old(self).context.rows@[r]@.len() ==> hl_defs@.contains_key(
                        (#[trigger] old(self).context.rows@[r]@[c]).hl_id,
                    ),
                out@.len() == r,
                forall|q: int|
                    0 <= q < r ==> (#[trigger] out@[q])@.len() == segments_of(
                        g[q],
                        0,
                        g[q].len() as int,
                    ).len(),
                forall|q: int, i: int|
                    0 <= q < r && 0 <= i < out@[q]@.len() ==> ({
                        let seg = segments_of(g[q], 0, g[q].len() as int)[i];
                        paints(
                            #[trigger] out@[q]@[i],
                            &old(self).context.cell_metrics,
                            hl_defs@[seg.hl_id],
                            hl_defs,
                            seg.text,
                            segment_rect(cw, ch, seg.start, seg.len, q),
                        )
                    }),
                self.context.queue_draw_area@ == old(self).context.queue_draw_area@ + grid_areas(
                    g,
                    cw,
                    ch,
                    r as int,
                ),
            decreases n - r,
        {
            let len = self.context.rows[r].len();
            let segments = self.context.rows[r].as_segments(0, len);
            let ghost cells = self.context.rows@[r as int]@;
            let ghost segs = crate::row::segment_views(segments@);
            assert(cells == g[r as int]);
            assert(cells.len() == self.context.cols());
            proof {
                assert forall|i: int| 0 <= i < segments@.len() implies {
                    &&& (#[trigger] segments@[i]).start <= MAX_GRID
                    &&& segments@[i].len <= MAX_GRID
                    &&& hl_defs@.contains_key(segments@[i].hl_id)
                } by {
                    assert(segs[i] == segments@[i]@);
                    crate::row::lemma_segment_within(cells, 0, len as int, segs, i);
                    assert(crate::row::is_run(cells, segs[i]));
                    assert(cells[segs[i].start].hl_id == segs[i].hl_id);
                }
            }
            let ghost before = self.context.queue_draw_area@;
            let paints = crate::render::put_segments(&mut self.context, hl_defs, segments, r);
            proof {
                assert forall|i: int| 0 <= i < segs.len() implies segments@[i]@ == segs[i] by {}
                assert(self.context.queue_draw_area@ =~= before + row_areas(
                    cells,
                    cw,
                    ch,
                    r as int,
                ));
                assert(self.context.queue_draw_area@ =~= old(self).context.queue_draw_area@
                    + grid_areas(g, cw, ch, r + 1));
            }
            out.push(paints);
            r += 1;
        }
        out
    }

    /// Blanks every cell of the grid and plans the clearing of a drawing
    /// area `w` by `h` pixels, which is queued for redraw.
    pub fn clear(&mut self, w: i32, h: i32) -> (r: Rectangle)
        requires
            old(self).context.wf(),
        ensures
            final(self).context.wf(),
            final(self).id == old(self).id,
            final(self).drag_position == old(self).drag_position,
            final(self).scroll_delta == old(self).scroll_delta,
            final(self).context.surfaces == old(self).context.surfaces,
            final(self).context.cell_metrics == old(self).context.cell_metrics,
            final(self).context.cursor == old(self).context.cursor,
            final(self).context.busy == old(self).context.busy,
            final(self).context.active == old(self).context.active,
            final(self).context.scroll_speed == old(self).context.scroll_speed,
            final(self).context.rows@.len() == old(self).context.rows@.len(),
            final(self).context.cols() == old(self).context.cols(),
            forall|j: int|
                0 <= j < old(self).context.rows@.len()
                    ==> (#[trigger] final(self).context.rows@[j])@
                        == crate::context::blank_row(old(self).context.cols()),
            r == (Rectangle { x: 0, y: 0, width: (w * 1024) as i64, height: (h * 1024) as i64 }),
            final(self).context.queue_draw_area@ == old(self).context.queue_draw_area@.push(
                as_area(r),
            ),
    {
        // Clear internal grid (rows).
        let n = self.context.rows.len();
        let mut i: usize = 0;
        while i < n
            invariant
                i <= n,
                n == self.context.rows@.len(),
                n == old(self).context.rows@.len(),
                self.id == old(self).id,
                self.drag_position == old(self).drag_position,
                self.scroll_delta == old(self).scroll_delta,
                self.context.surfaces == old(self).context.surfaces,
                self.context.cell_metrics == old(self).context.cell_metrics,
                self.context.cursor == old(self).context.cursor,
                self.context.busy == old(self).context.busy,
                self.context.active == old(self).context.active,
                self.context.scroll_speed == old(self).context.scroll_speed,
                self.context.queue_draw_area == old(self).context.queue_draw_area,
                old(self).context.wf(),
                forall|j: int|
                    0 <= j < i ==> (#[trigger] self.context.rows@[j])@ == crate::context::blank_row(
                        old(self).context.cols(),
                    ),
                forall|j: int|
                    i <= j < n ==> #[trigger] self.context.rows@[j] == old(self).context.rows@[j],
            decreases n - i,
        {
            assert(old(self).context.rows@[i as int]@.len() == old(self).context.cols());
            self.context.rows[i].clear();
            assert(self.context.rows@[i as int]@ =~= crate::context::blank_row(
                old(self).context.cols(),
            ));
            i += 1;
        }
        assert(self.context.cols() == old(self).context.cols());
        crate::render::clear(&mut self.context, w, h)
    }

    /// Scrolls the region `reg` by `rows` rows: moves the cells of the
    /// region's rows within its columns, blanks what nothing moved into, and
    /// plans the matching scroll of the surfaces, animated from time
    /// `frame_time`.
    pub fn scroll(&mut self, reg: GridScrollRegion, rows: i64, _cols: i64, frame_time: i64) -> (p:
        ScrollPaint)
        requires
            old(self).context.wf(),
            reg.0[0] <= reg.0[1] <= old(self).context.rows@.len(),
            reg.0[2] <= reg.0[3] <= old(self).context.cols(),
        ensures
            final(self).context.wf(),
            final(self).id == old(self).id,
            final(self).drag_position == old(self).drag_position,
            final(self).scroll_delta == old(self).scroll_delta,
            final(self).context.rows@.len() == old(self).context.rows@.len(),
            final(self).context.cols() == old(self).context.cols(),
            grid_view(final(self).context.rows@) == scrolled(
                grid_view(old(self).context.rows@),
                reg.0[0] as int,
                reg.0[1] as int,
                reg.0[2] as int,
                reg.0[3] as int,
                rows as int,
            ),
            p.offset_y == (area_of(reg.0[0], reg.0[1], rows as int).dst_top - area_of(
                reg.0[0],
                reg.0[1],
                rows as int,
            ).src_top) * old(self).context.cell_metrics.height,
            p.rect == crate::render::band(
                old(self).context.cell_metrics.width as int,
                old(self).context.cell_metrics.height as int,
                area_of(reg.0[0], reg.0[1], rows as int).dst_top as int,
                area_of(reg.0[0], reg.0[1], rows as int).dst_bot as int,
                reg.0[2] as int,
                reg.0[3] as int,
            ),
            final(self).context.queue_draw_area@ == old(self).context.queue_draw_area@.push(
                as_area(p.rect),
            ),
            final(self).context.cell_metrics == old(self).context.cell_metrics,
            final(self).context.cursor == old(self).context.cursor,
            final(self).context.busy == old(self).context.busy,
            final(self).context.active == old(self).context.active,
            final(self).context.scroll_speed == old(self).context.scroll_speed,
            final(self).context.surfaces.width == old(self).context.surfaces.width,
            final(self).context.surfaces.height == old(self).context.surfaces.height,
            old(self).context.scroll_speed <= 0 ==> final(self).context.surfaces.offset_y
                == p.offset_y && final(self).context.surfaces.offset_y_anim.is_none(),
            old(self).context.scroll_speed > 0 ==> final(self).context.surfaces.offset_y == 0
                && final(self).context.surfaces.offset_y_anim == Some(
                (crate::surfaces::ScrollAnimation {
                    start: 0,
                    end: p.offset_y,
                    start_time: frame_time,
                    duration: crate::surfaces::duration_us(
                        old(self).context.scroll_speed as int,
                    ) as i64,
                }),
            ),
    {
        let left: usize = reg.0[2] as usize;
        let right: usize = reg.0[3] as usize;
        let area = reg.calc_area(rows);
        let src_top: usize = area.src_top as usize;
        let src_bot: usize = area.src_bot as usize;
        let dst_top: usize = area.dst_top as usize;
        let dst_bot: usize = area.dst_bot as usize;
        let clr_top: usize = area.clr_top as usize;
        let clr_bot: usize = area.clr_bot as usize;
        let ghost g = grid_view(self.context.rows@);
        let ghost cols = self.context.cols();
        let ghost shift = src_top - dst_top;

        // Copy the cells that move, last row first, so that they can be
        // taken out again first row first.
        let mut src: Vec<Vec<crate::row::Cell>> = Vec::new();
        let mut k: usize = src_bot;
        while k > src_top
            invariant
                src_top <= k <= src_bot <= self.context.rows@.len(),
                left <= right <= cols,
                *self == *old(self),
                self.context.wf(),
                cols == self.context.cols(),
                src@.len() == src_bot - k,
                forall|j: int|
                    0 <= j < src@.len() ==> crate::row::cell_views((#[trigger] src@[j])@)
                        == g[src_bot - 1 - j].subrange(left as int, right as int),
                g == grid_view(old(self).context.rows@),
            decreases k,
        {
            k -= 1;
            assert(self.context.rows@[k as int]@.len() == cols);
            let part = self.context.rows[k].copy_range(left, right);
            assert(g[k as int] == self.context.rows@[k as int]@);
            src.push(part);
        }
        let ghost copied = src@;

        let mut i: usize = dst_top;
        while i < dst_bot
            invariant
                dst_top <= i <= dst_bot <= self.context.rows@.len(),
                src_top <= src_bot <= self.context.rows@.len(),
                dst_bot - dst_top == src_bot - src_top,
                shift == src_top - dst_top,
                g.len() == self.context.rows@.len(),
                left <= right <= cols,
                old(self).context.wf(),
                cols == old(self).context.cols(),
                g == grid_view(old(self).context.rows@),
                self.context.rows@.len() == old(self).context.rows@.len(),
                self.id == old(self).id,
                self.drag_position == old(self).drag_position,
                self.scroll_delta == old(self).scroll_delta,
                self.context.same_but_queue(&Context {
                    rows: self.context.rows,
                    ..old(self).context
                }),
                self.context.queue_draw_area == old(self).context.queue_draw_area,
                copied.len() == src_bot - src_top,
                forall|j: int|
                    0 <= j < copied.len() ==> crate::row::cell_views((#[trigger] copied[j])@)
                        == g[src_bot - 1 - j].subrange(left as int, right as int),
                src@.len() == dst_bot - i,
                forall|j: int| 0 <= j < src@.len() ==> #[trigger] src@[j] == copied[j],
                forall|j: int|
                    dst_top <= j < i ==> (#[trigger] self.context.rows@[j])@ == overwrite(
                        g[j],
                        left as int,
                        g[j + shift].subrange(left as int, right as int),
                    ),
                forall|j: int|
                    0 <= j < self.context.rows@.len() && !(dst_top <= j < i)
                        ==> #[trigger] self.context.rows@[j] == old(self).context.rows@[j],
            decreases dst_bot - i,
        {
            let part = src.pop().unwrap();
            assert(part == copied[dst_bot - i - 1]);
            assert(old(self).context.rows@[i as int]@.len() == cols);
            assert(g[i as int] == old(self).context.rows@[i as int]@);
            assert(g[i + shift].len() == cols) by {
                assert(old(self).context.rows@[i + shift]@.len() == cols);
            }
            let ghost prev = self.context.rows@;
            self.context.rows[i].insert_at(left, part);
            assert forall|j: int| 0 <= j < prev.len() && j != i implies self.context.rows@[j]
                == prev[j] by {}
            i += 1;
        }

        let mut c: usize = clr_top;
        while c < clr_bot
            invariant
                clr_top <= c <= clr_bot <= self.context.rows@.len(),
                dst_bot <= clr_top || clr_bot <= dst_top,
                dst_top <= dst_bot <= self.context.rows@.len(),
                src_top <= src_bot <= self.context.rows@.len(),
                dst_bot - dst_top == src_bot - src_top,
                shift == src_top - dst_top,
                g.len() == self.context.rows@.len(),
                left <= right <= cols,
                old(self).context.wf(),
                cols == old(self).context.cols(),
                g == grid_view(old(self).context.rows@),
                self.context.rows@.len() == old(self).context.rows@.len(),
                self.id == old(self).id,
                self.drag_position == old(self).drag_position,
                self.scroll_delta == old(self).scroll_delta,
                self.context.same_but_queue(&Context {
                    rows: self.context.rows,
                    ..old(self).context
                }),
                self.context.queue_draw_area == old(self).context.queue_draw_area,
                forall|j: int|
                    dst_top <= j < dst_bot ==> (#[trigger] self.context.rows@[j])@ == overwrite(
                        g[j],
                        left as int,
                        g[j + shift].subrange(left as int, right as int),
                    ),
                forall|j: int|
                    clr_top <= j < c ==> (#[trigger] self.context.rows@[j])@ == cleared(
                        g[j],
                        left as int,
                        right as int,
                    ),
                forall|j: int|
                    0 <= j < self.context.rows@.len() && !(dst_top <= j < dst_bot) && !(clr_top
                        <= j < c) ==> #[trigger] self.context.rows@[j]
                            == old(self).context.rows@[j],
            decreases clr_bot - c,
        {
            assert(old(self).context.rows@[c as int]@.len() == cols);
            assert(g[c as int] == old(self).context.rows@[c as int]@);
            let ghost prev = self.context.rows@;
            self.context.rows[c].clear_range(left, right);
            assert forall|j: int| 0 <= j < prev.len() && j != c implies self.context.rows@[j]
                == prev[j] by {}
            c += 1;
        }

        proof {
            let after = grid_view(self.context.rows@);
            let want = scrolled(
                g,
                reg.0[0] as int,
                reg.0[1] as int,
                left as int,
                right as int,
                rows as int,
            );
            assert forall|r: int| 0 <= r < g.len() implies #[trigger] after[r] == want[r] by {
                assert(old(self).context.rows@[r]@.len() == cols);
                assert(g[r] == old(self).context.rows@[r]@);
                if dst_top <= r < dst_bot {
                    assert(old(self).context.rows@[r + shift]@.len() == cols);
                    assert(g[r + shift] == old(self).context.rows@[r + shift]@);
                }
                assert(after[r] =~= want[r]);
            }
            assert(after =~= want);
            assert forall|j: int| 0 <= j < self.context.rows@.len() implies (
            #[trigger] self.context.rows@[j])@.len() == cols by {
                assert(after[j] == want[j]);
                assert(old(self).context.rows@[j]@.len() == cols);
            }
            assert(self.context.cols() == cols) by {
                if self.context.rows@.len() > 0 {
                    assert(self.context.rows@[0]@.len() == cols);
                }
            }
        }
        crate::render::scroll(&mut self.context, frame_time, area, reg.0[2], reg.0[3])
    }

    /// Empties the queue of areas to redraw and hands them out as pixel
    /// rectangles, the one queued last first. If the cursor is on a cell of
    /// the grid, the cursor takes the cell's foreground colour, and for a
    /// cursor that does not blink the drawing of the cell in swapped colours
    /// is planned.
    pub fn flush(&mut self, hl_defs: &HlDefs) -> (paint: FlushPaint)
        requires
            old(self).context.wf(),
            match old(self).context.cursor_cell_index() {
                Some((r, c)) => 0 <= r < old(self).context.rows@.len() && 0
                    <= c < old(self).context.rows@[r]@.len() ==> hl_defs@.contains_key(
                    old(self).context.rows@[r]@[c].hl_id,
                ),
                None => true,
            },
        ensures
            final(self).context.wf(),
            final(self).id == old(self).id,
            final(self).drag_position == old(self).drag_position,
            final(self).scroll_delta == old(self).scroll_delta,
            final(self).context.surfaces == old(self).context.surfaces,
            final(self).context.cell_metrics == old(self).context.cell_metrics,
            final(self).context.rows == old(self).context.rows,
            final(self).context.busy == old(self).context.busy,
            final(self).context.active == old(self).context.active,
            final(self).context.scroll_speed == old(self).context.scroll_speed,
            final(self).context.queue_draw_area@.len() == 0,
            paint.areas@.len() == old(self).context.queue_draw_area@.len(),
            forall|i: int|
                0 <= i < paint.areas@.len() ==> #[trigger] paint.areas@[i] == to_px_area(
                    old(self).context.queue_draw_area@[paint.areas@.len() - 1 - i],
                ),
            match old(self).context.cursor_cell_index() {
                Some((r, c)) => if 0 <= r < old(self).context.rows@.len() && 0
                    <= c < old(self).context.rows@[r]@.len() {
                    let cell = old(self).context.rows@[r]@[c];
                    &&& final(self).context.cursor == (crate::cursor::Cursor {
                        color: hl_defs@[cell.hl_id].foreground.unwrap_or(hl_defs.default_fg),
                        ..old(self).context.cursor
                    })
                    &&& paint.cursor_cell.is_some() == (old(self).context.cursor.blink_on == 0)
                    &&& paint.cursor_cell.is_some() ==> paints(
                        paint.cursor_cell.unwrap(),
                        &old(self).context.cell_metrics,
                        inverted(hl_defs@[cell.hl_id]),
                        hl_defs,
                        cell.text,
                        (Rectangle {
                            x: 0,
                            y: 0,
                            width: if cell.double_width {
                                (old(self).context.cell_metrics.width * 2) as i64
                            } else {
                                old(self).context.cell_metrics.width
                            },
                            height: old(self).context.cell_metrics.height,
                        }),
                    )
                } else {
                    final(self).context.cursor == old(self).context.cursor
                        && paint.cursor_cell.is_none()
                },
                None => final(self).context.cursor == old(self).context.cursor
                    && paint.cursor_cell.is_none(),
            },
    {
        let mut cursor_paint: Option<TextPaint> = None;
        let mut color: Option<Color> = None;
        match self.context.cell_at_cursor() {
            Some(cell) => {
                // If cursor isn't blinking, draw the inverted cell into the
                // cursor's surface.
                if self.context.cursor.blink_on == 0 {
                    cursor_paint = Some(cursor_cell(cell, &self.context.cell_metrics, hl_defs));
                }
                // Update cursor color.
                let found = hl_defs.get(&cell.hl_id);
                let hl = found.unwrap();
                color = Some(
                    match hl.foreground {
                        Some(fg) => fg,
                        None => hl_defs.default_fg,
                    },
                );
            },
            None => {},
        }
        match color {
            Some(c) => {
                self.context.cursor.color = c;
            },
            None => {},
        }
        let mut areas: Vec<(i32, i32, i32, i32)> = Vec::new();
        let ghost queued = self.context.queue_draw_area@;
        while self.context.queue_draw_area.len() > 0
            invariant
                queued == old(self).context.queue_draw_area@,
                self.context.queue_draw_area@.len() + areas@.len() == queued.len(),
                forall|i: int|
                    0 <= i < self.context.queue_draw_area@.len()
                        ==> #[trigger] self.context.queue_draw_area@[i] == queued[i],
                forall|i: int|
                    0 <= i < areas@.len() ==> #[trigger] areas@[i] == to_px_area(
                        queued[queued.len() - 1 - i],
                    ),
                self.context.wf(),
                self.id == old(self).id,
                self.drag_position == old(self).drag_position,
                self.scroll_delta == old(self).scroll_delta,
                self.context.surfaces == old(self).context.surfaces,
                self.context.cell_metrics == old(self).context.cell_metrics,
                self.context.rows == old(self).context.rows,
                self.context.busy == old(self).context.busy,
                self.context.active == old(self).context.active,
                self.context.scroll_speed == old(self).context.scroll_speed,
                self.context.cursor == (crate::cursor::Cursor {
                    color: self.context.cursor.color,
                    ..old(self).context.cursor
                }),
                color.is_some() ==> self.context.cursor.color == color.unwrap(),
                color.is_none() ==> self.context.cursor == old(self).context.cursor,
            decreases self.context.queue_draw_area@.len(),
        {
            let area = self.context.queue_draw_area.pop().unwrap();
            areas.push(
                (
                    to_i32(floor_to_px(area.0)),
                    to_i32(floor_to_px(area.1)),
                    to_i32(ceil_to_px(area.2)),
                    to_i32(ceil_to_px(area.3)),
                ),
            );
        }
        FlushPaint { cursor_cell: cursor_paint, areas }
    }
}

} // verus!
