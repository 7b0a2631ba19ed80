use linegrid::bridge::{GridScrollRegion, ModeInfo};
use linegrid::color::{Color, Highlight, HlDefs};
use linegrid::error::Error;
use linegrid::grid::{drawingarea_draw, Grid};
use linegrid::metrics::{Font, FontMetrics};
use linegrid::render::Rectangle;
use linegrid::row::{GridLineSegment, LineCell};

const PX: i64 = 1024;

fn metrics() -> FontMetrics {
    FontMetrics {
        ascent: 10 * 1024,
        descent: 4 * 1024,
        approximate_char_width: 8 * 1024,
        underline_position: -1024,
        underline_thickness: 1024,
    }
}

fn font() -> Font {
    Font { name: "Monospace".to_string(), size: 12 }
}

fn hl_defs() -> HlDefs {
    let mut defs = HlDefs::default();
    defs.insert(0, Highlight::default());
    let mut one = Highlight::default();
    one.foreground = Some(Color { r: 1, g: 2, b: 3 });
    one.background = Some(Color { r: 4, g: 5, b: 6 });
    defs.insert(1, one);
    defs
}

fn grid(cols: u64, rows: u64) -> Grid {
    let mut g = Grid::new(1, font(), 0, cols as usize, rows as usize, Some(metrics()), true, 0)
        .ok()
        .unwrap();
    g.resize(cols, rows, Some(metrics())).ok().unwrap();
    g
}

fn chunk(text: &str, hl_id: u64, repeat: u64) -> LineCell {
    LineCell { text: text.to_string(), hl_id, repeat, double_width: false }
}

fn line(row: u64, col_start: u64, cells: Vec<LineCell>) -> GridLineSegment {
    GridLineSegment { grid: 1, row, col_start, cells }
}

fn row_text(g: &Grid, row: usize) -> String {
    let r = &g.context.rows[row];
    let mut out = String::new();
    for i in 0..r.len() {
        out.push_str(&r.cell_at(i).unwrap().text);
    }
    out
}

#[test]
fn new_grid_has_no_rows_and_fails_without_metrics() {
    let g = Grid::new(7, font(), 2, 80, 30, Some(metrics()), false, 300).ok().unwrap();
    assert_eq!(g.id, 7);
    assert_eq!(g.context.rows.len(), 0);
    assert!(g.context.cursor.disable_animation);
    assert!(!g.context.busy);
    assert!(!g.context.active);
    assert_eq!(g.context.scroll_speed, 300);
    assert_eq!(g.get_line_space(), 2);
    assert_eq!(g.get_font().name, "Monospace");
    // line space 2: one pixel more above and below.
    assert_eq!(g.context.cell_metrics.ascent, 11 * PX);
    assert_eq!(g.context.cell_metrics.decent, 5 * PX);
    assert_eq!(g.context.cell_metrics.height, 16 * PX);
    assert_eq!(g.context.surfaces.width, 640);
    assert_eq!(g.context.surfaces.height, 480);

    let err = Grid::new(7, font(), 2, 80, 30, None, false, 300).err().unwrap();
    assert_eq!(err, Error::GetPangoMetrics);
}

#[test]
fn put_line_end_to_end() {
    let defs = hl_defs();
    let mut g = grid(10, 2);
    let paints = g.put_line(line(0, 0, vec![chunk("A", 0, 10)]), &defs).ok().unwrap();
    assert_eq!(paints.len(), 1);
    assert_eq!(paints[0].text, "AAAAAAAAAA");
    assert_eq!(
        paints[0].rect,
        Rectangle { x: 0, y: 0, width: 80 * PX, height: 14 * PX }
    );

    let paints = g.put_line(line(0, 2, vec![chunk("B", 1, 2)]), &defs).ok().unwrap();
    assert_eq!(paints.len(), 1);
    assert_eq!(paints[0].text, "BB");
    assert_eq!(paints[0].fg, Color { r: 1, g: 2, b: 3 });
    assert_eq!(paints[0].bg, Color { r: 4, g: 5, b: 6 });
    assert_eq!(
        paints[0].rect,
        Rectangle { x: 16 * PX, y: 0, width: 16 * PX, height: 14 * PX }
    );

    let row = &g.context.rows[0];
    let segs = row.as_segments(0, row.len());
    let got: Vec<(usize, usize, u64, String)> =
        segs.iter().map(|s| (s.start, s.len, s.hl_id, s.text.clone())).collect();
    assert_eq!(
        got,
        vec![
            (0, 2, 0, "AA".to_string()),
            (2, 2, 1, "BB".to_string()),
            (4, 6, 0, "AAAAAA".to_string()),
        ]
    );
    assert_eq!(row_text(&g, 1), "          ");
}

#[test]
fn put_line_paints_rightmost_segment_first() {
    let defs = hl_defs();
    let mut g = grid(6, 1);
    let paints = g
        .put_line(line(0, 1, vec![chunk("a", 0, 2), chunk("b", 1, 1), chunk("c", 0, 1)]), &defs)
        .ok()
        .unwrap();
    let texts: Vec<&str> = paints.iter().map(|p| p.text.as_str()).collect();
    assert_eq!(texts, vec!["c", "b", "aa"]);
    let xs: Vec<i64> = paints.iter().map(|p| p.rect.x).collect();
    assert_eq!(xs, vec![32 * PX, 24 * PX, 8 * PX]);
    assert_eq!(
        g.context.queue_draw_area,
        vec![
            (32 * PX, 0, 8 * PX, 14 * PX),
            (24 * PX, 0, 8 * PX, 14 * PX),
            (8 * PX, 0, 16 * PX, 14 * PX),
        ]
    );
}

#[test]
fn put_line_for_missing_row_fails() {
    let defs = hl_defs();
    let mut g = grid(4, 2);
    let err = g.put_line(line(2, 0, vec![chunk("A", 0, 1)]), &defs).err().unwrap();
    assert_eq!(err, Error::PutLineRowNotFound(2));
    assert_eq!(row_text(&g, 0), "    ");
    assert_eq!(row_text(&g, 1), "    ");
    assert!(g.context.queue_draw_area.is_empty());
    assert_eq!(err.message(), "Row of a line update not found");
    assert_eq!(Error::GetPangoMetrics.message(), "Failed to get font metrics");
    assert_eq!(Error::FailedToCreateSurface.message(), "Failed to create surface");
}

#[test]
fn scroll_up_by_one_row() {
    let defs = hl_defs();
    let mut g = grid(1, 2);
    g.put_line(line(0, 0, vec![chunk("X", 0, 1)]), &defs).ok().unwrap();
    g.put_line(line(1, 0, vec![chunk("Y", 1, 1)]), &defs).ok().unwrap();
    g.flush(&defs);

    let p = g.scroll(GridScrollRegion([0, 2, 0, 1]), 1, 0, 5_000);
    assert_eq!(row_text(&g, 0), "Y");
    assert_eq!(g.context.rows[0].cell_at(0).unwrap().hl_id, 1);
    assert_eq!(row_text(&g, 1), " ");
    assert_eq!(g.context.rows[1].cell_at(0).unwrap().hl_id, 0);
    // The band of row 0: from the top to the start of row 1.
    assert_eq!(p.rect, Rectangle { x: 0, y: 0, width: 8 * PX, height: 14 * PX });
    assert_eq!(p.offset_y, -14 * PX);
    assert_eq!(g.context.queue_draw_area, vec![(0, 0, 8 * PX, 14 * PX)]);
    // Scroll speed 0: nothing is animated.
    assert!(g.context.surfaces.offset_y_anim.is_none());
    assert_eq!(g.context.surfaces.offset_y, -14 * PX);
}

#[test]
fn scroll_there_and_back() {
    let defs = hl_defs();
    let mut g = grid(4, 4);
    for (i, t) in ["a", "b", "c", "d"].iter().enumerate() {
        g.put_line(line(i as u64, 0, vec![chunk(t, 1, 4)]), &defs).ok().unwrap();
    }
    // Rows 0..3, columns 1..3, up by one and down again.
    g.scroll(GridScrollRegion([0, 3, 1, 3]), 1, 0, 0);
    assert_eq!(row_text(&g, 0), "abba");
    assert_eq!(row_text(&g, 1), "bccb");
    assert_eq!(row_text(&g, 2), "c  c");
    assert_eq!(row_text(&g, 3), "dddd");
    g.scroll(GridScrollRegion([0, 3, 1, 3]), -1, 0, 0);
    // The first row of the region was pushed out: it stays blank.
    assert_eq!(row_text(&g, 0), "a  a");
    assert_eq!(g.context.rows[0].cell_at(1).unwrap().hl_id, 0);
    assert_eq!(row_text(&g, 1), "bbbb");
    assert_eq!(row_text(&g, 2), "cccc");
    assert_eq!(row_text(&g, 3), "dddd");

    // Down by two and up again: the last two rows of the region stay blank.
    g.scroll(GridScrollRegion([1, 4, 0, 4]), -2, 0, 0);
    assert_eq!(row_text(&g, 1), "    ");
    assert_eq!(row_text(&g, 2), "    ");
    assert_eq!(row_text(&g, 3), "bbbb");
    g.scroll(GridScrollRegion([1, 4, 0, 4]), 2, 0, 0);
    assert_eq!(row_text(&g, 0), "a  a");
    assert_eq!(row_text(&g, 1), "bbbb");
    assert_eq!(row_text(&g, 2), "    ");
    assert_eq!(row_text(&g, 3), "    ");
}

#[test]
fn scroll_by_more_than_the_region_blanks_it() {
    let defs = hl_defs();
    let mut g = grid(2, 3);
    for i in 0..3 {
        g.put_line(line(i, 0, vec![chunk("k", 1, 2)]), &defs).ok().unwrap();
    }
    g.scroll(GridScrollRegion([0, 2, 0, 2]), 5, 0, 0);
    assert_eq!(row_text(&g, 0), "  ");
    assert_eq!(row_text(&g, 1), "  ");
    assert_eq!(row_text(&g, 2), "kk");
}

#[test]
fn scroll_starts_an_animation() {
    let mut g = Grid::new(1, font(), 0, 2, 3, Some(metrics()), true, 200).ok().unwrap();
    g.resize(2, 3, Some(metrics())).ok().unwrap();
    let p = g.scroll(GridScrollRegion([0, 3, 0, 2]), -1, 0, 1_000);
    assert_eq!(p.offset_y, 14 * PX);
    assert_eq!(p.rect, Rectangle { x: 0, y: 14 * PX, width: 16 * PX, height: 28 * PX });
    let anim = g.context.surfaces.offset_y_anim.unwrap();
    assert_eq!(anim.start, 0);
    assert_eq!(anim.end, 14 * PX);
    assert_eq!(anim.start_time, 1_000);
    assert_eq!(anim.duration, 200_000);
    assert_eq!(g.context.surfaces.offset_y, 0);

    let c = drawingarea_draw(&g.context);
    assert_eq!(c.back_offset, Some(0));
    assert_eq!(c.front_offset, 0);
    assert!(c.cursor.is_none());

    let t = g.context.tick(101_000);
    assert!(t.redraw);
    assert_eq!(g.context.surfaces.offset_y, 7 * PX);
    let c = drawingarea_draw(&g.context);
    assert_eq!(c.back_offset, Some(7 * PX));
    assert_eq!(c.front_offset, 7 * PX);
    // Ticking again at the same time changes nothing.
    g.context.tick(101_000);
    assert_eq!(g.context.surfaces.offset_y, 7 * PX);

    let t = g.context.tick(201_000);
    assert!(t.redraw);
    assert_eq!(g.context.surfaces.offset_y, 14 * PX);
    assert!(g.context.surfaces.offset_y_anim.is_none());
    let t = g.context.tick(300_000);
    assert!(!t.redraw);
    let c = drawingarea_draw(&g.context);
    assert_eq!(c.back_offset, None);
    assert_eq!(c.front_offset, 14 * PX);
}

#[test]
fn resize_down_and_up_leaves_no_stale_content() {
    let defs = {
        let mut d = hl_defs();
        d.insert(5, Highlight::default());
        d
    };
    let mut g = grid(80, 24);
    for r in 0..24 {
        g.put_line(line(r, 0, vec![chunk("Z", 5, 80)]), &defs).ok().unwrap();
    }
    let kept = g.resize(40, 12, Some(metrics())).ok().unwrap();
    assert_eq!(kept, (80 * 8 * PX, 24 * 14 * PX));
    assert_eq!(g.context.rows.len(), 12);
    assert_eq!(g.context.surfaces.width, 40 * 8);
    assert_eq!(g.context.surfaces.height, 12 * 14);
    for r in 0..12 {
        assert_eq!(g.context.rows[r].len(), 40);
    }

    let kept = g.resize(80, 24, Some(metrics())).ok().unwrap();
    // Only what the small grid showed may be kept.
    assert_eq!(kept, (40 * 8 * PX, 12 * 14 * PX));
    assert_eq!(g.context.rows.len(), 24);
    assert_eq!(g.context.surfaces.width, 80 * 8);
    assert_eq!(g.context.surfaces.height, 24 * 14);
    for r in 0..24 {
        let row = &g.context.rows[r];
        assert_eq!(row.len(), 80);
        for c in 0..80 {
            let cell = row.cell_at(c).unwrap();
            if r < 12 && c < 40 {
                assert_eq!((cell.text.as_str(), cell.hl_id), ("Z", 5));
            } else {
                assert_eq!((cell.text.as_str(), cell.hl_id), (" ", 0));
            }
        }
    }
}

#[test]
fn resize_without_metrics_changes_nothing() {
    let mut g = grid(3, 2);
    let err = g.resize(5, 5, None).err().unwrap();
    assert_eq!(err, Error::GetPangoMetrics);
    assert_eq!(g.context.rows.len(), 2);
    assert_eq!(g.context.rows[0].len(), 3);
    assert_eq!(g.context.cell_metrics.width, 8 * PX);
}

#[test]
fn resize_measures_old_area_in_new_metrics() {
    let mut g = grid(10, 4);
    let smaller = FontMetrics {
        ascent: 5 * 1024,
        descent: 2 * 1024,
        approximate_char_width: 4 * 1024 + 512,
        underline_position: -512,
        underline_thickness: 512,
    };
    let kept = g.resize(20, 8, Some(smaller)).ok().unwrap();
    assert_eq!(kept, (10 * (4 * PX + 512), 4 * 7 * PX));
    assert_eq!(g.context.surfaces.width, 90);
    assert_eq!(g.context.surfaces.height, 56);
}

#[test]
fn update_cell_metrics_keeps_or_replaces() {
    let mut g = grid(3, 2);
    let err = g
        .update_cell_metrics(Font { name: "Other".to_string(), size: 9 }, 4, None)
        .err()
        .unwrap();
    assert_eq!(err, Error::GetPangoMetrics);
    assert_eq!(g.get_font().name, "Monospace");
    assert_eq!(g.get_line_space(), 0);
    assert_eq!(g.context.cell_metrics.height, 14 * PX);

    g.update_cell_metrics(Font { name: "Other".to_string(), size: 9 }, 3, Some(metrics()))
        .ok()
        .unwrap();
    assert_eq!(g.get_font().name, "Other");
    assert_eq!(g.get_font().size, 9);
    assert_eq!(g.get_line_space(), 3);
    // 10 + 1.5 and 4 + 1.5 pixels, each rounded up.
    assert_eq!(g.context.cell_metrics.ascent, 12 * PX);
    assert_eq!(g.context.cell_metrics.decent, 6 * PX);
    assert_eq!(g.context.cell_metrics.height, 18 * PX);
    assert_eq!(g.context.cell_metrics.width, 8 * PX);
    assert_eq!(g.context.cell_metrics.underline_position, -1024 - 1536);
    assert_eq!(g.context.cell_metrics.underline_thickness, 2 * PX);
}

#[test]
fn clear_blanks_rows_and_queues_whole_area() {
    let defs = hl_defs();
    let mut g = grid(3, 2);
    g.put_line(line(1, 0, vec![chunk("q", 1, 3)]), &defs).ok().unwrap();
    g.flush(&defs);
    let r = g.clear(100, 50);
    assert_eq!(r, Rectangle { x: 0, y: 0, width: 100 * PX, height: 50 * PX });
    assert_eq!(row_text(&g, 0), "   ");
    assert_eq!(row_text(&g, 1), "   ");
    assert_eq!(g.context.rows[1].cell_at(0).unwrap().hl_id, 0);
    assert_eq!(g.context.queue_draw_area, vec![(0, 0, 100 * PX, 50 * PX)]);
}

#[test]
fn redraw_plans_every_row() {
    let defs = hl_defs();
    let mut g = grid(4, 2);
    g.put_line(line(0, 1, vec![chunk("m", 1, 2)]), &defs).ok().unwrap();
    g.flush(&defs);
    let rows = g.redraw(&defs);
    assert_eq!(rows.len(), 2);
    let texts: Vec<Vec<&str>> =
        rows.iter().map(|r| r.iter().map(|p| p.text.as_str()).collect()).collect();
    assert_eq!(texts, vec![vec![" ", "mm", " "], vec!["    "]]);
    assert_eq!(
        g.context.queue_draw_area,
        vec![
            (0, 0, 8 * PX, 14 * PX),
            (8 * PX, 0, 16 * PX, 14 * PX),
            (24 * PX, 0, 8 * PX, 14 * PX),
            (0, 14 * PX, 32 * PX, 14 * PX),
        ]
    );
}

#[test]
fn flush_drains_queue_last_first_and_rounds_outwards() {
    let defs = hl_defs();
    let mut g = grid(4, 2);
    g.context.queue_draw_area.push((1, 1025, 1, 2049));
    g.context.queue_draw_area.push((-1, 0, 0, 1024));
    let paint = g.flush(&defs);
    assert_eq!(paint.areas, vec![(-1, 0, 0, 1), (0, 1, 1, 3)]);
    assert!(paint.cursor_cell.is_none());
    assert!(g.context.queue_draw_area.is_empty());
}

#[test]
fn flush_draws_cell_under_steady_cursor() {
    let defs = hl_defs();
    let mut g = grid(4, 2);
    g.put_line(line(1, 2, vec![chunk("w", 1, 1)]), &defs).ok().unwrap();
    g.enable_cursor_animations(false);
    g.cursor_goto(1, 2, 0);
    let paint = g.flush(&defs);
    let cell = paint.cursor_cell.unwrap();
    assert_eq!(cell.text, "w");
    // Colours swapped.
    assert_eq!(cell.fg, Color { r: 4, g: 5, b: 6 });
    assert_eq!(cell.bg, Color { r: 1, g: 2, b: 3 });
    assert_eq!(cell.rect, Rectangle { x: 0, y: 0, width: 8 * PX, height: 14 * PX });
    assert_eq!(g.context.cursor.color, Color { r: 1, g: 2, b: 3 });

    g.set_mode(&ModeInfo { blink_on: 500, cell_percentage: 256 });
    let paint = g.flush(&defs);
    assert!(paint.cursor_cell.is_none());
    assert_eq!(g.context.cursor.blink_on, 500);
    assert_eq!(g.context.cursor.cell_percentage, 256);
}

#[test]
fn grid_metrics_and_sizes() {
    let g = grid(10, 4);
    let m = g.get_grid_metrics();
    assert_eq!(m.rows, 4);
    assert_eq!(m.cols, 10);
    assert_eq!(m.cell_width, 8 * PX);
    assert_eq!(m.cell_height, 14 * PX);
    assert_eq!(m.width, 80 * PX);
    assert_eq!(m.height, 56 * PX);
    assert_eq!(g.calc_size(100, 50), (12, 3));
    assert_eq!(g.calc_size(-17, 0), (-2, 0));
    assert_eq!(g.da_resize(100, 50), (3, 12));
    assert_eq!(g.da_resize(-5, 13), (0, 0));
    assert_eq!(g.get_rect_for_cell(2, 3), (24, 28, 8, 14));
}

#[test]
fn flags_are_set() {
    let mut g = grid(2, 2);
    g.set_active(true);
    assert!(g.context.active);
    g.set_busy(true);
    assert!(g.context.busy);
    g.set_busy(false);
    g.enable_cursor_animations(false);
    assert!(g.context.cursor.disable_animation);
    g.enable_cursor_animations(true);
    assert!(!g.context.cursor.disable_animation);
    g.set_active(false);
    assert!(!g.context.active);
}
