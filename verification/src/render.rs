//! Plans for drawing: which rectangle each piece of text is drawn into, in
//! which colours, and which areas have to be redrawn.

use crate::bridge::GridScrollArea;
use crate::color::{Color, Highlight, HlDefs};
use crate::context::Context;
use crate::metrics::CellMetrics;
use crate::row::{Cell, Segment};
use crate::surfaces::{duration_us, ScrollAnimation};
use crate::units::{
    ceil_px, ceil_to_px, floor_px, floor_to_px, mul_scaled, scaled, scaled_fits, MAX_GRID,
    MAX_OFFSET,
};
use vstd::prelude::*;

verus! {

/// A rectangle on a surface, in units.
#[derive(Clone, Copy, Debug, PartialEq, Eq, Structural)]
pub struct Rectangle {
    pub x: i64,
    pub y: i64,
    pub width: i64,
    pub height: i64,
}

/// What to draw for one run of text: the rectangle to fill with `bg`, the
/// text to shape and draw in `fg` from `baseline` on, and the strokes to lay
/// over it in `sp`.
pub struct TextPaint {
    pub rect: Rectangle,
    pub fg: Color,
    pub bg: Color,
    pub sp: Color,
    pub bold: bool,
    pub italic: bool,
    pub text: String,
    /// Left end of the text's baseline, (x, y) in units.
    pub baseline: (i64, i64),
    /// Area of the wavy underline, if the text has one.
    pub undercurl: Option<Rectangle>,
    /// Area of the straight underline, if the text has one.
    pub underline: Option<Rectangle>,
}

/// Foreground colour of a style: its own, or the default; the background's
/// where the style is reversed.
pub open spec fn resolved_fg(hl: Highlight, defs: &HlDefs) -> Color {
    if hl.reverse {
        hl.background.unwrap_or(defs.default_bg)
    } else {
        hl.foreground.unwrap_or(defs.default_fg)
    }
}

/// Background colour of a style: its own, or the default; the foreground's
/// where the style is reversed.
pub open spec fn resolved_bg(hl: Highlight, defs: &HlDefs) -> Color {
    if hl.reverse {
        hl.foreground.unwrap_or(defs.default_fg)
    } else {
        hl.background.unwrap_or(defs.default_bg)
    }
}

/// Whether `p` is the way to draw `text` in style `hl` into `pos`: colours
/// resolved against the defaults, the baseline one ascent below the top, and
/// the underline strokes placed below the text by the font's underline
/// metrics.
pub open spec fn paints(
    p: TextPaint,
    cm: &CellMetrics,
    hl: Highlight,
    defs: &HlDefs,
    text: Seq<char>,
    pos: Rectangle,
) -> bool {
    &&& p.rect == pos
    &&& p.fg == resolved_fg(hl, defs)
    &&& p.bg == resolved_bg(hl, defs)
    &&& p.sp == hl.special.unwrap_or(defs.default_sp)
    &&& p.bold == hl.bold
    &&& p.italic == hl.italic
    &&& p.text@ == text
    &&& p.baseline == (pos.x, (pos.y + cm.ascent) as i64)
    &&& p.undercurl == (if hl.undercurl {
        Some(
            Rectangle {
                x: pos.x,
                y: (pos.y + pos.height + cm.underline_position - cm.underline_thickness) as i64,
                width: pos.width,
                height: (cm.underline_thickness * 2) as i64,
            },
        )
    } else {
        None
    })
    &&& p.underline == (if hl.underline {
        Some(
            Rectangle {
                x: pos.x,
                y: (pos.y + pos.height + cm.underline_position) as i64,
                width: pos.width,
                height: cm.underline_thickness,
            },
        )
    } else {
        None
    })
}

/// Whether a rectangle is small enough for strokes to be placed around it.
pub open spec fn rect_in_range(r: Rectangle) -> bool {
    &&& -MAX_OFFSET <= r.x <= MAX_OFFSET
    &&& -MAX_OFFSET <= r.y <= MAX_OFFSET
    &&& -MAX_OFFSET <= r.width <= MAX_OFFSET
    &&& -MAX_OFFSET <= r.height <= MAX_OFFSET
}

/// Plans the drawing of `text` in style `hl` into the rectangle `pos`.
pub fn render_text(
    cm: &CellMetrics,
    hl: &Highlight,
    hl_defs: &HlDefs,
    text: &str,
    pos: Rectangle,
) -> (p: TextPaint)
    requires
        cm.wf(),
        rect_in_range(pos),
    ensures
        paints(p, cm, *hl, hl_defs, text@, pos),
{
    let own_fg = match hl.foreground {
        Some(c) => c,
        None => hl_defs.default_fg,
    };
    let own_bg = match hl.background {
        Some(c) => c,
        None => hl_defs.default_bg,
    };
    let (fg, bg) = if hl.reverse {
        (own_bg, own_fg)
    } else {
        (own_fg, own_bg)
    };
    let sp = match hl.special {
        Some(c) => c,
        None => hl_defs.default_sp,
    };
    let undercurl = if hl.undercurl {
        Some(
            Rectangle {
                x: pos.x,
                y: pos.y + pos.height + cm.underline_position - cm.underline_thickness,
                width: pos.width,
                height: cm.underline_thickness * 2,
            },
        )
    } else {
        None
    };
    let underline = if hl.underline {
        Some(
            Rectangle {
                x: pos.x,
                y: pos.y + pos.height + cm.underline_position,
                width: pos.width,
                height: cm.underline_thickness,
            },
        )
    } else {
        None
    };
    TextPaint {
        rect: pos,
        fg,
        bg,
        sp,
        bold: hl.bold,
        italic: hl.italic,
        text: text.to_owned(),
        baseline: (pos.x, pos.y + cm.ascent),
        undercurl,
        underline,
    }
}

/// The style `hl` with foreground and background swapped.
pub open spec fn inverted(hl: Highlight) -> Highlight {
    Highlight { reverse: !hl.reverse, ..hl }
}

/// Plans the drawing of the cell under the cursor: the cell's text in its
/// own style with the colours swapped, at the origin of the cursor's own
/// surface, two cells wide for a double-width cell.
pub fn cursor_cell(cell: &Cell, cm: &CellMetrics, hl_defs: &HlDefs) -> (p: TextPaint)
    requires
        cm.wf(),
        hl_defs@.contains_key(cell.hl_id),
    ensures
        paints(
            p,
            cm,
            inverted(hl_defs@[cell.hl_id]),
            hl_defs,
            cell.text@,
            (Rectangle {
                x: 0,
                y: 0,
                width: if cell.double_width {
                    (cm.width * 2) as i64
                } else {
                    cm.width
                },
                height: cm.height,
            }),
        ),
{
    let found = hl_defs.get(&cell.hl_id);
    let mut hl: Highlight = *found.unwrap();
    hl.reverse = !hl.reverse;
    let width: i64 = if cell.double_width {
        cm.width * 2
    } else {
        cm.width
    };
    render_text(
        cm,
        &hl,
        hl_defs,
        cell.text.as_str(),
        Rectangle { x: 0, y: 0, width, height: cm.height },
    )
}

/// Corners of the band of rows `top..bot` and columns `left..right`, as
/// (x1, y1, x2, y2); everything in units.
pub fn get_rect(col_h: i64, col_w: i64, top: i64, bot: i64, left: i64, right: i64) -> (r: (
    i64,
    i64,
    i64,
    i64,
))
    requires
        scaled_fits(left as int, col_w as int),
        scaled_fits(top as int, col_h as int),
        scaled_fits(right as int, col_w as int),
        scaled_fits(bot as int, col_h as int),
    ensures
        r == (
            scaled(left as int, col_w as int) as i64,
            scaled(top as int, col_h as int) as i64,
            scaled(right as int, col_w as int) as i64,
            scaled(bot as int, col_h as int) as i64,
        ),
{
    let (x1, y1) = get_coords(col_h, col_w, top, left);
    let (x2, y2) = get_coords(col_h, col_w, bot, right);
    (x1, y1, x2, y2)
}

/// Position (x, y) of the top left corner of cell (`row`, `col`), for cells
/// `h` high and `w` wide; everything in units.
pub fn get_coords(h: i64, w: i64, row: i64, col: i64) -> (p: (i64, i64))
    requires
        scaled_fits(col as int, w as int),
        scaled_fits(row as int, h as int),
    ensures
        p == (scaled(col as int, w as int) as i64, scaled(row as int, h as int) as i64),
{
    let x = mul_scaled(col, w);
    let y = mul_scaled(row, h);
    (x, y)
}

/// The pixel rectangle of `len` cells from column `start` of row `row`, for
/// cells `cw` wide and `ch` high: the origin rounded down and the extent
/// rounded up to whole pixels. In units.
pub open spec fn segment_rect(cw: int, ch: int, start: int, len: int, row: int) -> Rectangle {
    Rectangle {
        x: (floor_px(start * cw) * 1024) as i64,
        y: (floor_px(row * ch) * 1024) as i64,
        width: (ceil_px(len * cw) * 1024) as i64,
        height: (ceil_px(ch) * 1024) as i64,
    }
}

/// A rectangle as an entry of the queue of areas to redraw.
pub open spec fn as_area(r: Rectangle) -> (i64, i64, i64, i64) {
    (r.x, r.y, r.width, r.height)
}

/// The product of a cell count and a cell metric stays far inside `i64`.
pub proof fn lemma_cells_fit(count: int, size: int)
    requires
        0 <= count <= MAX_GRID,
        -0x2_0000_0000 <= size <= 0x2_0000_0000,
    ensures
        -0x200_0000_0000_0000 <= count * size <= 0x200_0000_0000_0000,
        size * count == count * size,
{
    assert(size * count == count * size) by (nonlinear_arith);
    assert(-0x200_0000_0000_0000 <= count * size <= 0x200_0000_0000_0000) by (nonlinear_arith)
        requires
            0 <= count <= 0x100_0000,
            -0x2_0000_0000 <= size <= 0x2_0000_0000,
    ;
}

/// Rounding a segment's rectangle to whole pixels never shrinks it: the
/// rounded origin is at or before the true one, by less than a pixel, and
/// the rounded extent is at least the true one, by less than a pixel.
pub proof fn lemma_segment_rect_covers(cw: int, ch: int, start: int, len: int, row: int)
    requires
        0 <= start <= MAX_GRID,
        0 <= len <= MAX_GRID,
        0 <= row <= MAX_GRID,
        -0x2_0000_0000 <= cw <= 0x2_0000_0000,
        -0x2_0000_0000 <= ch <= 0x2_0000_0000,
    ensures
        segment_rect(cw, ch, start, len, row).x <= start * cw < segment_rect(
            cw,
            ch,
            start,
            len,
            row,
        ).x + 1024,
        segment_rect(cw, ch, start, len, row).y <= row * ch < segment_rect(
            cw,
            ch,
            start,
            len,
            row,
        ).y + 1024,
        len * cw <= segment_rect(cw, ch, start, len, row).width < len * cw + 1024,
        ch <= segment_rect(cw, ch, start, len, row).height < ch + 1024,
{
    lemma_cells_fit(start, cw);
    lemma_cells_fit(len, cw);
    lemma_cells_fit(row, ch);
}

/// Computes the pixel rectangle of `len` cells from column `start` of row
/// `row`.
pub fn get_segment_rect(cm: &CellMetrics, start: usize, len: usize, row: usize) -> (r: Rectangle)
    requires
        cm.wf(),
        start <= MAX_GRID,
        len <= MAX_GRID,
        row <= MAX_GRID,
    ensures
        r == segment_rect(cm.width as int, cm.height as int, start as int, len as int, row as int),
        rect_in_range(r),
{
    proof {
        lemma_cells_fit(start as int, cm.width as int);
        lemma_cells_fit(len as int, cm.width as int);
        lemma_cells_fit(row as int, cm.height as int);
    }
    Rectangle {
        x: floor_to_px((start as i64) * cm.width) * 1024,
        y: floor_to_px((row as i64) * cm.height) * 1024,
        width: ceil_to_px((len as i64) * cm.width) * 1024,
        height: ceil_to_px(cm.height) * 1024,
    }
}

/// Plans the drawing of `segments` of row `row`, in the order given, and
/// queues the rectangle of each for redraw.
pub fn put_segments(ctx: &mut Context, hl_defs: &HlDefs, segments: Vec<Segment>, row: usize)
    -> (out:
    Vec<TextPaint>)
    requires
        old(ctx).wf(),
        row <= MAX_GRID,
        forall|i: int|
            0 <= i < segments@.len() ==> {
                &&& (#[trigger] segments@[i]).start <= MAX_GRID
                &&& segments@[i].len <= MAX_GRID
                &&& hl_defs@.contains_key(segments@[i].hl_id)
            },
    ensures
        final(ctx).same_but_queue(old(ctx)),
        out@.len() == segments@.len(),
        final(ctx).queue_draw_area@ == old(ctx).queue_draw_area@ + Seq::new(
            segments@.len(),
            |i: int|
                as_area(
                    segment_rect(
                        old(ctx).cell_metrics.width as int,
                        old(ctx).cell_metrics.height as int,
                        segments@[i].start as int,
                        segments@[i].len as int,
                        row as int,
                    ),
                ),
        ),
        forall|i: int|
            0 <= i < segments@.len() ==> paints(
                #[trigger] out@[i],
                &old(ctx).cell_metrics,
                hl_defs@[segments@[i].hl_id],
                hl_defs,
                segments@[i].text@,
                segment_rect(
                    old(ctx).cell_metrics.width as int,
                    old(ctx).cell_metrics.height as int,
                    segments@[i].start as int,
                    segments@[i].len as int,
                    row as int,
                ),
            ),
{
    let mut out: Vec<TextPaint> = Vec::new();
    let n = segments.len();
    let ghost cw = ctx.cell_metrics.width as int;
    let ghost ch = ctx.cell_metrics.height as int;
    let mut k: usize = 0;
    while k < n
        invariant
            k <= n,
            n == segments@.len(),
            row <= MAX_GRID,
            ctx.wf(),
            ctx.same_but_queue(old(ctx)),
            cw == old(ctx).cell_metrics.width,
            ch == old(ctx).cell_metrics.height,
            forall|i: int|
                0 <= i < segments@.len() ==> {
                    &&& (#[trigger] segments@[i]).start <= MAX_GRID
                    &&& segments@[i].len <= MAX_GRID
                    &&& hl_defs@.contains_key(segments@[i].hl_id)
                },
            out@.len() == k,
            ctx.queue_draw_area@ == old(ctx).queue_draw_area@ + Seq::new(
                k as nat,
                |i: int|
                    as_area(
                        segment_rect(cw, ch, segments@[i].start as int, segments@[i].len as int,
                            row as int),
                    ),
            ),
            forall|i: int|
                0 <= i < k ==> paints(
                    #[trigger] out@[i],
                    &old(ctx).cell_metrics,
                    hl_defs@[segments@[i].hl_id],
                    hl_defs,
                    segments@[i].text@,
                    segment_rect(cw, ch, segments@[i].start as int, segments@[i].len as int,
                        row as int),
                ),
        decreases n - k,
    {
        let seg = &segments[k];
        let found = hl_defs.get(&seg.hl_id);
        let hl: &Highlight = found.unwrap();
        let pos = get_segment_rect(&ctx.cell_metrics, seg.start, seg.len, row);
        let paint = render_text(&ctx.cell_metrics, hl, hl_defs, seg.text.as_str(), pos);
        out.push(paint);
        let ghost before = ctx.queue_draw_area@;
        ctx.queue_draw_area.push((pos.x, pos.y, pos.width, pos.height));
        proof {
            assert(ctx.queue_draw_area@ =~= old(ctx).queue_draw_area@ + Seq::new(
                (k + 1) as nat,
                |i: int|
                    as_area(
                        segment_rect(cw, ch, segments@[i].start as int, segments@[i].len as int,
                            row as int),
                    ),
            ));
        }
        k += 1;
    }
    out
}

/// Plans the clearing of a drawing area `w` by `h` pixels: the whole area is
/// to be filled with the default background, and is queued for redraw.
pub fn clear(ctx: &mut Context, w: i32, h: i32) -> (r: Rectangle)
    ensures
        final(ctx).same_but_queue(old(ctx)),
        r == (Rectangle { x: 0, y: 0, width: (w * 1024) as i64, height: (h * 1024) as i64 }),
        final(ctx).queue_draw_area@ == old(ctx).queue_draw_area@.push(as_area(r)),
{
    let r = Rectangle { x: 0, y: 0, width: (w as i64) * 1024, height: (h as i64) * 1024 };
    ctx.queue_draw_area.push((r.x, r.y, r.width, r.height));
    r
}

/// What to draw for a scroll: the content of `rect` is replaced by the
/// content `offset_y` above it (below it, for a negative offset), taken from
/// a snapshot of the surface.
#[derive(Clone, Copy, Debug, PartialEq, Eq, Structural)]
pub struct ScrollPaint {
    /// Distance in units by which content moves down.
    pub offset_y: i64,
    /// The band that receives the moved content.
    pub rect: Rectangle,
}

/// The band of rows `top..bot` and columns `left..right`, for cells `cw`
/// wide and `ch` high.
pub open spec fn band(cw: int, ch: int, top: int, bot: int, left: int, right: int) -> Rectangle {
    Rectangle {
        x: (left * cw) as i64,
        y: (top * ch) as i64,
        width: (right * cw - left * cw) as i64,
        height: (bot * ch - top * ch) as i64,
    }
}

/// The product of a whole number of cells, written in units, and a cell
/// metric is that number of cells times the metric.
pub proof fn lemma_scaled_whole(count: int, size: int)
    ensures
        scaled(count * 1024, size) == count * size,
{
    vstd::arithmetic::div_mod::lemma_div_multiples_vanish(count * size, 1024);
    assert((count * 1024) * size == 1024 * (count * size)) by (nonlinear_arith);
}

/// Plans the scroll of the surfaces that goes with a scroll of the grid by
/// the bands of `area`, in columns `left..right`: the destination band
/// receives the content that lies `(src_top - dst_top)` rows below it, is
/// queued for redraw, and the scroll animation starts from time
/// `frame_time`.
pub fn scroll(ctx: &mut Context, frame_time: i64, area: GridScrollArea, left: u64, right: u64)
    -> (p:
    ScrollPaint)
    requires
        old(ctx).wf(),
        area.src_top <= MAX_GRID,
        area.dst_top <= MAX_GRID,
        area.dst_bot <= MAX_GRID,
        left <= MAX_GRID,
        right <= MAX_GRID,
    ensures
        p.offset_y == (area.dst_top - area.src_top) * old(ctx).cell_metrics.height,
        p.rect == band(
            old(ctx).cell_metrics.width as int,
            old(ctx).cell_metrics.height as int,
            area.dst_top as int,
            area.dst_bot as int,
            left as int,
            right as int,
        ),
        final(ctx).queue_draw_area@ == old(ctx).queue_draw_area@.push(as_area(p.rect)),
        final(ctx).wf(),
        final(ctx).cell_metrics == old(ctx).cell_metrics,
        final(ctx).rows == old(ctx).rows,
        final(ctx).cursor == old(ctx).cursor,
        final(ctx).busy == old(ctx).busy,
        final(ctx).active == old(ctx).active,
        final(ctx).scroll_speed == old(ctx).scroll_speed,
        final(ctx).surfaces.width == old(ctx).surfaces.width,
        final(ctx).surfaces.height == old(ctx).surfaces.height,
        old(ctx).scroll_speed <= 0 ==> final(ctx).surfaces.offset_y == p.offset_y
            && final(ctx).surfaces.offset_y_anim.is_none(),
        old(ctx).scroll_speed > 0 ==> final(ctx).surfaces.offset_y == 0
            && final(ctx).surfaces.offset_y_anim == Some(
            (ScrollAnimation {
                start: 0,
                end: p.offset_y,
                start_time: frame_time,
                duration: duration_us(old(ctx).scroll_speed as int) as i64,
            }),
        ),
{
    let ch: i64 = ctx.cell_metrics.height;
    let cw: i64 = ctx.cell_metrics.width;
    let delta: i64 = (area.dst_top as i64) - (area.src_top as i64);
    proof {
        lemma_scaled_whole(delta as int, ch as int);
        lemma_scaled_whole(area.dst_top as int, ch as int);
        lemma_scaled_whole(area.dst_bot as int, ch as int);
        lemma_scaled_whole(left as int, cw as int);
        lemma_scaled_whole(right as int, cw as int);
        lemma_cells_fit(area.dst_top as int, ch as int);
        lemma_cells_fit(area.src_top as int, ch as int);
        lemma_cells_fit(area.dst_bot as int, ch as int);
        lemma_cells_fit(left as int, cw as int);
        lemma_cells_fit(right as int, cw as int);
        assert(delta * ch == area.dst_top * ch - area.src_top * ch) by (nonlinear_arith)
            requires
                delta == area.dst_top - area.src_top,
        ;
    }
    let (_, y) = get_coords(ch, cw, delta * 1024, 0);
    let (x1, y1, x2, y2) = get_rect(
        ch,
        cw,
        (area.dst_top as i64) * 1024,
        (area.dst_bot as i64) * 1024,
        (left as i64) * 1024,
        (right as i64) * 1024,
    );
    let w: i64 = x2 - x1;
    let h: i64 = y2 - y1;
    ctx.queue_draw_area.push((x1, y1, w, h));
    ctx.surfaces.set_animation(y, ctx.scroll_speed, frame_time);
    ScrollPaint { offset_y: y, rect: Rectangle { x: x1, y: y1, width: w, height: h } }
}

} // verus!
