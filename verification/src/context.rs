//! The state of one grid and the event handlers that work on it.

use crate::color::Color;
use crate::cursor::{alpha_at, lemma_blink_phase_bounds, Cursor};
use crate::error::Error;
use crate::metrics::{CellMetrics, Font, FontMetrics, MAX_LINE_SPACE};
use crate::row::{default_cell, resized, Cell, CellView, Row};
use crate::surfaces::{surface_extent, Surfaces};
use crate::units::{ceil_px, ceil_to_px, clamp_i32, floor_px, floor_to_px, scaled, to_i32, MAX_GRID};
use vstd::prelude::*;

verus! {

/// The state of one grid: its cells, cursor, metrics and surfaces, and the
/// areas waiting to be redrawn.
pub struct Context {
    pub surfaces: Surfaces,
    /// Our cell metrics.
    pub cell_metrics: CellMetrics,
    /// Internal grid.
    pub rows: Vec<Row>,
    pub cursor: Cursor,
    /// While busy, the cursor is not drawn.
    pub busy: bool,
    /// Whether the grid that this context belongs to is the active one.
    pub active: bool,
    /// Duration of a scroll animation, in ms.
    pub scroll_speed: i64,
    /// Areas to redraw at the next flush, as (x, y, width, height) in units.
    pub queue_draw_area: Vec<(i64, i64, i64, i64)>,
}

/// What to draw so that the cursor blinks: the cursor's own surface, `width`
/// by `height` units from its origin, is filled with `color` at opacity
/// `alpha` (of 1024), and `area`, in pixels, is redrawn at once.
#[derive(Clone, Copy, Debug)]
pub struct BlinkPaint {
    pub alpha: i64,
    pub color: Color,
    pub width: i64,
    pub height: i64,
    pub area: (i32, i32, i32, i32),
}

/// What to redraw after a tick.
#[derive(Clone, Copy, Debug)]
pub struct TickPaint {
    /// Whether the whole drawing area is to be redrawn, because the scroll
    /// offset moved.
    pub redraw: bool,
    /// Where the cursor stood before the tick, in pixels: to be redrawn.
    pub cursor_area: (i32, i32, i32, i32),
    /// The blink step, for a cursor that blinks.
    pub blink: Option<BlinkPaint>,
}

/// A pixel rectangle as an entry of the queue of areas to redraw.
pub open spec fn px_area(r: (i32, i32, i32, i32)) -> (i64, i64, i64, i64) {
    ((r.0 * 1024) as i64, (r.1 * 1024) as i64, (r.2 * 1024) as i64, (r.3 * 1024) as i64)
}

/// The cells of a grid, row by row.
pub open spec fn grid_view(rows: Seq<Row>) -> Seq<Seq<CellView>> {
    Seq::new(rows.len(), |i: int| rows[i]@)
}

/// A row of `cols` blank cells.
pub open spec fn blank_row(cols: int) -> Seq<CellView> {
    Seq::new(cols as nat, |j: int| default_cell())
}

/// A grid cut or padded with blank cells to `rows` by `cols`.
pub open spec fn resized_grid(g: Seq<Seq<CellView>>, rows: int, cols: int) -> Seq<Seq<CellView>> {
    Seq::new(
        rows as nat,
        |i: int|
            if i < g.len() {
                resized(g[i], cols)
            } else {
                blank_row(cols)
            },
    )
}

impl Context {
    /// Number of columns: the length of the first row, 0 for a grid without
    /// rows.
    pub open spec fn cols(&self) -> int {
        if self.rows@.len() > 0 {
            self.rows@[0]@.len() as int
        } else {
            0
        }
    }

    /// The parts are well formed, the grid is no larger than `MAX_GRID` either
    /// way, and all rows have the same length.
    pub open spec fn wf(&self) -> bool {
        &&& self.surfaces.wf()
        &&& self.cell_metrics.wf()
        &&& self.cursor.wf()
        &&& self.rows@.len() <= MAX_GRID
        &&& self.cols() <= MAX_GRID
        &&& forall|i: int| 0 <= i < self.rows@.len() ==> (#[trigger] self.rows@[i])@.len()
            == self.cols()
    }

    /// Whether `self` differs from `before` in nothing but the queue of areas
    /// to redraw.
    pub open spec fn same_but_queue(&self, before: &Context) -> bool {
        &&& self.surfaces == before.surfaces
        &&& self.cell_metrics == before.cell_metrics
        &&& self.rows == before.rows
        &&& self.cursor == before.cursor
        &&& self.busy == before.busy
        &&& self.active == before.active
        &&& self.scroll_speed == before.scroll_speed
    }

    /// Row and column of the cell that the cursor is on or heading for: its
    /// position rounded up to whole cells.
    pub open spec fn cursor_cell_index(&self) -> Option<(int, int)> {
        match self.cursor.pos {
            Some(p) => Some((ceil_px(p.0 as int), ceil_px(p.1 as int))),
            None => None,
        }
    }

    /// Whether the cursor is on a cell of the grid, and that cell is
    /// double-width.
    pub open spec fn cursor_on_double_width(&self) -> bool {
        match self.cursor_cell_index() {
            Some((r, c)) => 0 <= r < self.rows@.len() && 0 <= c < self.rows@[r]@.len()
                && self.rows@[r]@[c].double_width,
            None => false,
        }
    }

    /// The rectangle (x, y, width, height), in pixels, that the cursor takes
    /// up on screen: its origin rounded down, its extent rounded up, twice
    /// as wide over a double-width cell.
    pub open spec fn cursor_rect(&self) -> (i32, i32, i32, i32) {
        let pos = match self.cursor.pos {
            Some(p) => p,
            None => (0i64, 0i64),
        };
        let cm = self.cell_metrics;
        (
            clamp_i32(floor_px(scaled(pos.1 as int, cm.width as int))) as i32,
            clamp_i32(floor_px(scaled(pos.0 as int, cm.height as int))) as i32,
            clamp_i32(
                ceil_px(
                    if self.cursor_on_double_width() {
                        cm.width * 2
                    } else {
                        cm.width as int
                    },
                ),
            ) as i32,
            clamp_i32(ceil_px(cm.height as int)) as i32,
        )
    }

    /// A context for a grid of `rows` by `cols` cells, drawn with `font` and
    /// `line_space`, for which the measurement backend reported `fm`. The
    /// grid has no rows until it is first resized.
    pub fn new(
        font: Font,
        line_space: i64,
        cols: usize,
        rows: usize,
        fm: Option<FontMetrics>,
        enable_cursor_animations: bool,
        scroll_speed: i64,
    ) -> (res: Result<Context, Error>)
        requires
            -MAX_LINE_SPACE <= line_space <= MAX_LINE_SPACE,
            rows <= MAX_GRID,
            cols <= MAX_GRID,
        ensures
            fm.is_none() ==> res is Err && res->Err_0 == Error::GetPangoMetrics,
            fm.is_some() ==> res is Ok && {
                let ctx = res->Ok_0;
                &&& ctx.wf()
                &&& ctx.cell_metrics.measured(fm.unwrap())
                &&& ctx.cell_metrics.line_space == line_space
                &&& ctx.cell_metrics.font == font
                &&& ctx.surfaces.width == surface_extent(cols as int, ctx.cell_metrics.width as int)
                &&& ctx.surfaces.height == surface_extent(
                    rows as int,
                    ctx.cell_metrics.height as int,
                )
                &&& ctx.surfaces.offset_y == 0
                &&& ctx.surfaces.offset_y_anim.is_none()
                &&& ctx.rows@.len() == 0
                &&& ctx.cursor.pos.is_none()
                &&& ctx.cursor.animation.is_none()
                &&& ctx.cursor.disable_animation == !enable_cursor_animations
                &&& ctx.cursor.blink_on == 0
                &&& ctx.cursor.alpha == 0
                &&& ctx.cursor.cell_percentage == 0
                &&& !ctx.busy
                &&& !ctx.active
                &&& ctx.scroll_speed == scroll_speed
                &&& ctx.queue_draw_area@.len() == 0
            },
    {
        let mut cell_metrics = CellMetrics {
            height: 0,
            width: 0,
            ascent: 0,
            decent: 0,
            underline_thickness: 0,
            underline_position: 0,
            line_space,
            font,
        };
        match cell_metrics.update(fm) {
            Ok(()) => {},
            Err(e) => {
                return Err(e);
            },
        }
        let mut cursor = Cursor::default();
        cursor.disable_animation = !enable_cursor_animations;
        let surfaces = Surfaces::new(&cell_metrics, rows, cols);
        Ok(
            Context {
                surfaces,
                cell_metrics,
                rows: Vec::new(),
                cursor,
                busy: false,
                active: false,
                scroll_speed,
                queue_draw_area: Vec::new(),
            },
        )
    }

    /// The cell that the cursor is on or heading for, if the cursor has been
    /// placed and that cell is on the grid.
    pub fn cell_at_cursor(&self) -> (c: Option<&Cell>)
        requires
            self.wf(),
        ensures
            match self.cursor_cell_index() {
                Some((row, col)) => if 0 <= row < self.rows@.len() && 0 <= col
                    < self.rows@[row]@.len() {
                    c.is_some() && c.unwrap()@ == self.rows@[row]@[col]
                } else {
                    c.is_none()
                },
                None => c.is_none(),
            },
    {
        match self.cursor.get_position() {
            Some(pos) => {
                let row: i64 = ceil_to_px(pos.0);
                let col: i64 = ceil_to_px(pos.1);
                if (row as usize) < self.rows.len() {
                    self.rows[row as usize].cell_at(col as usize)
                } else {
                    None
                }
            },
            None => None,
        }
    }

    /// The rectangle (x, y, width, height), in pixels, that the cursor takes
    /// up on screen, where it is shown now (which may be in the middle of a
    /// move).
    pub fn get_cursor_rect(&self) -> (rect: (i32, i32, i32, i32))
        requires
            self.wf(),
        ensures
            rect == self.cursor_rect(),
    {
        let double_width = match self.cell_at_cursor() {
            Some(cell) => cell.double_width,
            None => false,
        };
        let pos: (i64, i64) = match self.cursor.pos {
            Some(p) => p,
            None => (0, 0),
        };
        proof {
            lemma_cursor_product_fits(pos.0 as int, self.cell_metrics.height as int);
            lemma_cursor_product_fits(pos.1 as int, self.cell_metrics.width as int);
        }
        let (x, y) = crate::render::get_coords(
            self.cell_metrics.height,
            self.cell_metrics.width,
            pos.0,
            pos.1,
        );
        let width: i64 = if double_width {
            self.cell_metrics.width * 2
        } else {
            self.cell_metrics.width
        };
        (
            to_i32(floor_to_px(x)),
            to_i32(floor_to_px(y)),
            to_i32(ceil_to_px(width)),
            to_i32(ceil_to_px(self.cell_metrics.height)),
        )
    }

    /// Resizes the grid to `rows` by `cols` cells and recomputes the metrics
    /// from `fm`, what the measurement backend now reports for the font.
    /// Rows and columns that stay keep their cells, new ones are blank; the
    /// surfaces take the new size and keep the scroll offset and animation.
    /// Returns the extent (width, height), in units, of the surface content
    /// that may be kept: the area of the old grid, measured in the new
    /// metrics. With no metrics the call fails and changes nothing.
    pub fn resize(&mut self, cols: usize, rows: usize, fm: Option<FontMetrics>) -> (res: Result<
        (i64, i64),
        Error,
    >)
        requires
            old(self).wf(),
            0 < rows <= MAX_GRID,
            cols <= MAX_GRID,
        ensures
            fm.is_none() ==> res is Err && res->Err_0 == Error::GetPangoMetrics && *final(self)
                == *old(self),
            fm.is_some() ==> {
                &&& res is Ok
                &&& final(self).wf()
                &&& final(self).rows@.len() == rows
                &&& final(self).cols() == cols
                &&& grid_view(final(self).rows@) == resized_grid(
                    grid_view(old(self).rows@),
                    rows as int,
                    cols as int,
                )
                &&& final(self).cell_metrics.measured(fm.unwrap())
                &&& final(self).cell_metrics.line_space == old(self).cell_metrics.line_space
                &&& final(self).cell_metrics.font == old(self).cell_metrics.font
                &&& res->Ok_0.0 == final(self).cell_metrics.width * old(self).cols()
                &&& res->Ok_0.1 == final(self).cell_metrics.height * old(self).rows@.len()
                &&& final(self).surfaces.width == surface_extent(
                    cols as int,
                    final(self).cell_metrics.width as int,
                )
                &&& final(self).surfaces.height == surface_extent(
                    rows as int,
                    final(self).cell_metrics.height as int,
                )
                &&& final(self).surfaces.offset_y == old(self).surfaces.offset_y
                &&& final(self).surfaces.offset_y_anim == old(self).surfaces.offset_y_anim
                &&& final(self).cursor == old(self).cursor
                &&& final(self).busy == old(self).busy
                &&& final(self).active == old(self).active
                &&& final(self).scroll_speed == old(self).scroll_speed
                &&& final(self).queue_draw_area == old(self).queue_draw_area
            },
    {
        if fm.is_none() {
            return Err(Error::GetPangoMetrics);
        }
        let prev_rows: usize = self.rows.len();
        let prev_cols: usize = if prev_rows > 0 {
            self.rows[0].len()
        } else {
            0
        };
        if prev_rows > rows {
            self.rows.truncate(rows);
        }
        let kept: usize = self.rows.len();
        if prev_cols != cols {
            let mut i: usize = 0;
            while i < kept
                invariant
                    i <= kept,
                    kept == self.rows@.len(),
                    kept <= old(self).rows@.len(),
                    forall|j: int|
                        0 <= j < i ==> (#[trigger] self.rows@[j])@ == resized(
                            old(self).rows@[j]@,
                            cols as int,
                        ),
                    forall|j: int| i <= j < kept ==> #[trigger] self.rows@[j] == old(self).rows@[j],
                    self.surfaces == old(self).surfaces,
                    self.cell_metrics == old(self).cell_metrics,
                    self.cursor == old(self).cursor,
                    self.busy == old(self).busy,
                    self.active == old(self).active,
                    self.scroll_speed == old(self).scroll_speed,
                    self.queue_draw_area == old(self).queue_draw_area,
                decreases kept - i,
            {
                self.rows[i].resize(cols);
                i += 1;
            }
        } else {
            assert forall|j: int| 0 <= j < kept implies (#[trigger] self.rows@[j])@ == resized(
                old(self).rows@[j]@,
                cols as int,
            ) by {
                assert(old(self).rows@[j]@.len() == old(self).cols());
                assert(self.rows@[j]@ =~= resized(old(self).rows@[j]@, cols as int));
            }
        }
        while self.rows.len() < rows
            invariant
                kept <= self.rows@.len() <= rows,
                kept <= old(self).rows@.len(),
                kept == old(self).rows@.len() || kept == rows,
                forall|j: int|
                    0 <= j < kept ==> (#[trigger] self.rows@[j])@ == resized(
                        old(self).rows@[j]@,
                        cols as int,
                    ),
                forall|j: int|
                    kept <= j < self.rows@.len() ==> (#[trigger] self.rows@[j])@ == blank_row(
                        cols as int,
                    ),
                self.surfaces == old(self).surfaces,
                self.cell_metrics == old(self).cell_metrics,
                self.cursor == old(self).cursor,
                self.busy == old(self).busy,
                self.active == old(self).active,
                self.scroll_speed == old(self).scroll_speed,
                self.queue_draw_area == old(self).queue_draw_area,
            decreases rows - self.rows@.len(),
        {
            self.rows.push(Row::new(cols));
        }
        assert(grid_view(self.rows@) =~= resized_grid(
            grid_view(old(self).rows@),
            rows as int,
            cols as int,
        ));
        assert(self.rows@[0]@.len() == cols);
        match self.cell_metrics.update(fm) {
            Ok(()) => {},
            Err(e) => {
                return Err(e);
            },
        }
        let offset_y = self.surfaces.offset_y;
        let offset_y_anim = self.surfaces.offset_y_anim;
        self.surfaces = Surfaces::new(&self.cell_metrics, rows, cols);
        // Keep the offset and animation.
        self.surfaces.offset_y = offset_y;
        self.surfaces.offset_y_anim = offset_y_anim;
        proof {
            crate::render::lemma_cells_fit(prev_cols as int, self.cell_metrics.width as int);
            crate::render::lemma_cells_fit(prev_rows as int, self.cell_metrics.height as int);
        }
        // Only the area that was visible before may be kept, measured in the
        // current metrics: after a change to a smaller font the old surface
        // would otherwise cover space that nothing clears.
        Ok(
            (
                self.cell_metrics.width * (prev_cols as i64),
                self.cell_metrics.height * (prev_rows as i64),
            ),
        )
    }

    /// Sets a new font and line spacing and recomputes the metrics from `fm`,
    /// what the measurement backend reports for the new font. With no
    /// metrics the call fails and changes nothing.
    pub fn update_metrics(&mut self, font: Font, line_space: i64, fm: Option<FontMetrics>) -> (res:
        Result<(), Error>)
        requires
            old(self).wf(),
            -MAX_LINE_SPACE <= line_space <= MAX_LINE_SPACE,
        ensures
            fm.is_none() ==> res is Err && res->Err_0 == Error::GetPangoMetrics && *final(self)
                == *old(self),
            fm.is_some() ==> {
                &&& res is Ok
                &&& final(self).wf()
                &&& final(self).cell_metrics.measured(fm.unwrap())
                &&& final(self).cell_metrics.line_space == line_space
                &&& final(self).cell_metrics.font == font
                &&& final(self).surfaces == old(self).surfaces
                &&& final(self).rows == old(self).rows
                &&& final(self).cursor == old(self).cursor
                &&& final(self).busy == old(self).busy
                &&& final(self).active == old(self).active
                &&& final(self).scroll_speed == old(self).scroll_speed
                &&& final(self).queue_draw_area == old(self).queue_draw_area
            },
    {
        if fm.is_none() {
            return Err(Error::GetPangoMetrics);
        }
        self.cell_metrics.font = font;
        self.cell_metrics.line_space = line_space;
        self.cell_metrics.update(fm)
    }

    /// Sends the cursor to cell (`row`, `col`) at time `frame_time`, and
    /// queues for redraw the area it leaves and the area it is then shown
    /// at.
    pub fn cursor_goto(&mut self, row: u64, col: u64, frame_time: i64)
        requires
            old(self).wf(),
            row <= MAX_GRID,
            col <= MAX_GRID,
        ensures
            final(self).wf(),
            final(self).cursor == old(self).cursor.sent_to(row, col, frame_time),
            final(self).queue_draw_area@ == old(self).queue_draw_area@.push(
                px_area(old(self).cursor_rect()),
            ).push(px_area(final(self).cursor_rect())),
            final(self).surfaces == old(self).surfaces,
            final(self).cell_metrics == old(self).cell_metrics,
            final(self).rows == old(self).rows,
            final(self).busy == old(self).busy,
            final(self).active == old(self).active,
            final(self).scroll_speed == old(self).scroll_speed,
    {
        // Clear old cursor position.
        let (x, y, w, h) = self.get_cursor_rect();
        self.queue_draw_area.push(
            ((x as i64) * 1024, (y as i64) * 1024, (w as i64) * 1024, (h as i64) * 1024),
        );
        self.cursor.goto(row, col, frame_time);
        // Mark the new cursor position to be drawn.
        let (x, y, w, h) = self.get_cursor_rect();
        self.queue_draw_area.push(
            ((x as i64) * 1024, (y as i64) * 1024, (w as i64) * 1024, (h as i64) * 1024),
        );
    }

    /// Advances the scroll animation and the cursor to time `frame_time`,
    /// and says what to redraw.
    pub fn tick(&mut self, frame_time: i64) -> (paint: TickPaint)
        requires
            old(self).wf(),
        ensures
            final(self).wf(),
            final(self).surfaces == old(self).surfaces.ticked(frame_time as int),
            final(self).cursor == old(self).cursor.ticked(frame_time as int),
            final(self).cell_metrics == old(self).cell_metrics,
            final(self).rows == old(self).rows,
            final(self).busy == old(self).busy,
            final(self).active == old(self).active,
            final(self).scroll_speed == old(self).scroll_speed,
            final(self).queue_draw_area == old(self).queue_draw_area,
            paint.redraw == old(self).surfaces.offset_y_anim.is_some(),
            paint.cursor_area == old(self).cursor_rect(),
            old(self).cursor.blink_on == 0 ==> paint.blink.is_none(),
            old(self).cursor.blink_on != 0 ==> paint.blink.is_some() && {
                let b = paint.blink.unwrap();
                &&& b.alpha == alpha_at(old(self).cursor.blink_on as int, frame_time as int)
                &&& 0 <= b.alpha <= 1024
                &&& b.color == old(self).cursor.color
                &&& b.width == old(self).cell_metrics.width * 2
                &&& b.height == old(self).cell_metrics.height
                &&& b.area == final(self).cursor_rect()
            },
    {
        let redraw = self.surfaces.tick(frame_time);
        let cursor_area = self.get_cursor_rect();
        self.cursor.tick(frame_time);
        // We're not blinking, so skip the blink animation phase.
        if self.cursor.blink_on == 0 {
            return TickPaint { redraw, cursor_area, blink: None };
        }
        proof {
            lemma_blink_phase_bounds(self.cursor.blink_on as int, frame_time as int);
        }
        let area = self.get_cursor_rect();
        let alpha = self.cursor.blink_alpha();
        // The cursor surface is filled two cells wide, so that it is wide
        // enough over any cell; it is clipped when drawn.
        TickPaint {
            redraw,
            cursor_area,
            blink: Some(
                BlinkPaint {
                    alpha,
                    color: self.cursor.color,
                    width: self.cell_metrics.width * 2,
                    height: self.cell_metrics.height,
                    area,
                },
            ),
        }
    }
}

/// The cursor's rectangle is as wide as its cell, rounded up to whole
/// pixels: two cell widths over a double-width cell, one cell width
/// anywhere else, whatever the metrics.
pub proof fn lemma_cursor_rect_width(ctx: &Context)
    requires
        ctx.wf(),
    ensures
        ctx.cursor_on_double_width() ==> ctx.cursor_rect().2 == ceil_px(2 * ctx.cell_metrics.width),
        !ctx.cursor_on_double_width() ==> ctx.cursor_rect().2 == ceil_px(
            ctx.cell_metrics.width as int,
        ),
        ctx.cursor_rect().3 == ceil_px(ctx.cell_metrics.height as int),
{
}

/// The product of a cursor position and a cell metric, rounded down to
/// units, fits in `i64`.
proof fn lemma_cursor_product_fits(pos: int, size: int)
    requires
        0 <= pos <= 0x4_0000_0000,
        -0x2_0000_0000 <= size <= 0x2_0000_0000,
    ensures
        crate::units::scaled_fits(pos, size),
        -0x1000_0000_0000_0000 <= scaled(pos, size) <= 0x1000_0000_0000_0000,
{
    assert(-0x8_0000_0000_0000_0000 <= pos * size <= 0x8_0000_0000_0000_0000)
        by (nonlinear_arith)
        requires
            0 <= pos <= 0x4_0000_0000,
            -0x2_0000_0000 <= size <= 0x2_0000_0000,
    ;
}

} // verus!
