use linegrid::bridge::{GridScrollArea, GridScrollRegion};
use linegrid::color::{Color, Highlight, HlDefs};
use linegrid::context::Context;
use linegrid::metrics::{CellMetrics, Font, FontMetrics};
use linegrid::render::{
    clear, cursor_cell, get_coords, get_rect, get_segment_rect, put_segments, render_text, scroll,
    Rectangle,
};
use linegrid::row::{Cell, Segment};
use linegrid::surfaces::Surfaces;
use linegrid::units::{ceil_to_px, evaluate, floor_to_px, mul_scaled, to_i32};

const PX: i64 = 1024;

fn cell_metrics(width: i32, line_space: i64) -> CellMetrics {
    let mut cm = CellMetrics::default();
    cm.line_space = line_space;
    cm.update(Some(FontMetrics {
        ascent: 10 * 1024,
        descent: 4 * 1024 + 1,
        approximate_char_width: width,
        underline_position: -1024,
        underline_thickness: 512,
    }))
    .ok()
    .unwrap();
    cm
}

fn context(width: i32) -> Context {
    Context::new(
        Font { name: "Monospace".to_string(), size: 12 },
        0,
        10,
        4,
        Some(FontMetrics {
            ascent: 10 * 1024,
            descent: 4 * 1024,
            approximate_char_width: width,
            underline_position: -1024,
            underline_thickness: 512,
        }),
        true,
        100,
    )
    .ok()
    .unwrap()
}

fn defs() -> HlDefs {
    let mut d = HlDefs::default();
    d.default_fg = Color { r: 200, g: 200, b: 200 };
    d.default_bg = Color { r: 10, g: 10, b: 10 };
    d.default_sp = Color { r: 250, g: 0, b: 0 };
    d.insert(0, Highlight::default());
    d
}

#[test]
fn rounding_to_pixels() {
    assert_eq!(floor_to_px(0), 0);
    assert_eq!(floor_to_px(1023), 0);
    assert_eq!(floor_to_px(1024), 1);
    assert_eq!(floor_to_px(-1), -1);
    assert_eq!(floor_to_px(-1024), -1);
    assert_eq!(floor_to_px(-1025), -2);
    assert_eq!(floor_to_px(i64::MIN), -9007199254740992);
    assert_eq!(ceil_to_px(0), 0);
    assert_eq!(ceil_to_px(1), 1);
    assert_eq!(ceil_to_px(1024), 1);
    assert_eq!(ceil_to_px(1025), 2);
    assert_eq!(ceil_to_px(-1), 0);
    assert_eq!(ceil_to_px(-1024), -1);
    assert_eq!(ceil_to_px(i64::MAX), 9007199254740992);
    assert_eq!(to_i32(5), 5);
    assert_eq!(to_i32(i64::MAX), i32::MAX);
    assert_eq!(to_i32(i64::MIN), i32::MIN);
    assert_eq!(to_i32(-2147483648), i32::MIN);
}

#[test]
fn products_in_units() {
    assert_eq!(mul_scaled(3 * PX, 8 * PX + 512), 3 * (8 * PX + 512));
    assert_eq!(mul_scaled(512, 3), 1);
    assert_eq!(mul_scaled(-512, 3), -2);
    assert_eq!(mul_scaled(512, -3), -2);
    assert_eq!(mul_scaled(-512, -3), 1);
    assert_eq!(mul_scaled(i64::MAX, 1024), i64::MAX);
    assert_eq!(mul_scaled(i64::MIN, 1024), i64::MIN);
}

#[test]
fn timed_moves() {
    assert_eq!(evaluate(0, 100, 10, 50, 9), 0);
    assert_eq!(evaluate(0, 100, 10, 50, 10), 0);
    assert_eq!(evaluate(0, 100, 10, 50, 35), 50);
    assert_eq!(evaluate(0, 100, 10, 50, 59), 98);
    assert_eq!(evaluate(0, 100, 10, 50, 60), 100);
    assert_eq!(evaluate(0, 100, 10, 50, i64::MAX), 100);
    assert_eq!(evaluate(0, 100, i64::MAX, 50, i64::MIN), 0);
    assert_eq!(evaluate(0, -100, 0, 3, 1), -34);
    assert_eq!(evaluate(0, -100, 0, 3, 2), -67);
    assert_eq!(evaluate(7, 7, 0, 3, 2), 7);
    let mut last = 5;
    for t in 0..=1000 {
        let v = evaluate(5, 905, 0, 1000, t);
        assert!(last <= v && v <= 905);
        last = v;
    }
    assert_eq!(last, 905);
}

#[test]
fn coords_and_bands() {
    assert_eq!(get_coords(14 * PX, 8 * PX + 300, 2 * PX, 3 * PX), (3 * (8 * PX + 300), 28 * PX));
    assert_eq!(get_coords(14 * PX, 8 * PX, 512, 256), (2 * PX, 7 * PX));
    assert_eq!(get_coords(14 * PX, 8 * PX, -PX, 0), (0, -14 * PX));
    assert_eq!(
        get_rect(14 * PX, 8 * PX, PX, 3 * PX, 2 * PX, 5 * PX),
        (16 * PX, 14 * PX, 40 * PX, 42 * PX)
    );
}

#[test]
fn segment_rect_never_shrinks() {
    // Cells 8.29 pixels wide, 14.001 pixels high.
    let cm = cell_metrics(8 * 1024 + 300, 0);
    assert_eq!(cm.height, 15 * PX);
    let r = get_segment_rect(&cm, 3, 2, 4);
    assert_eq!(r, Rectangle { x: 24 * PX, y: 60 * PX, width: 17 * PX, height: 15 * PX });
    for start in 0..40usize {
        for len in 0..5usize {
            let r = get_segment_rect(&cm, start, len, 7);
            let true_x = start as i64 * cm.width;
            let true_w = len as i64 * cm.width;
            assert!(r.x <= true_x && true_x - r.x < PX);
            assert!(r.width >= true_w && r.width - true_w < PX);
            assert_eq!(r.y, 7 * cm.height);
            assert!(r.height >= cm.height);
            assert_eq!(r.x % PX, 0);
            assert_eq!(r.width % PX, 0);
        }
    }
}

#[test]
fn text_is_drawn_with_resolved_colours() {
    let cm = cell_metrics(8 * 1024, 2);
    let d = defs();
    let pos = Rectangle { x: 16 * PX, y: 32 * PX, width: 24 * PX, height: 16 * PX };
    let mut hl = Highlight::default();
    let p = render_text(&cm, &hl, &d, "abc", pos);
    assert_eq!(p.rect, pos);
    assert_eq!(p.text, "abc");
    assert_eq!(p.fg, d.default_fg);
    assert_eq!(p.bg, d.default_bg);
    assert_eq!(p.sp, d.default_sp);
    assert!(!p.bold && !p.italic);
    assert_eq!(p.baseline, (16 * PX, 32 * PX + 11 * PX));
    assert!(p.undercurl.is_none());
    assert!(p.underline.is_none());

    hl.foreground = Some(Color { r: 1, g: 1, b: 1 });
    hl.special = Some(Color { r: 3, g: 3, b: 3 });
    hl.reverse = true;
    hl.bold = true;
    hl.italic = true;
    hl.underline = true;
    hl.undercurl = true;
    let p = render_text(&cm, &hl, &d, "", pos);
    assert_eq!(p.fg, d.default_bg);
    assert_eq!(p.bg, Color { r: 1, g: 1, b: 1 });
    assert_eq!(p.sp, Color { r: 3, g: 3, b: 3 });
    assert!(p.bold && p.italic);
    // Underline position -1 - 1 pixels, thickness doubled to 1 pixel.
    assert_eq!(cm.underline_position, -2 * PX);
    assert_eq!(cm.underline_thickness, PX);
    assert_eq!(
        p.underline,
        Some(Rectangle { x: 16 * PX, y: 46 * PX, width: 24 * PX, height: PX })
    );
    assert_eq!(
        p.undercurl,
        Some(Rectangle { x: 16 * PX, y: 45 * PX, width: 24 * PX, height: 2 * PX })
    );
}

#[test]
fn cursor_cell_swaps_colours_and_doubles_width() {
    let cm = cell_metrics(8 * 1024 + 1, 0);
    let mut d = defs();
    let mut hl = Highlight::default();
    hl.foreground = Some(Color { r: 1, g: 1, b: 1 });
    hl.reverse = true;
    d.insert(4, hl);
    let wide = Cell { text: "\u{4e2d}".to_string(), hl_id: 4, double_width: true };
    let p = cursor_cell(&wide, &cm, &d);
    // Reversed twice: the style's own colours.
    assert_eq!(p.fg, Color { r: 1, g: 1, b: 1 });
    assert_eq!(p.bg, d.default_bg);
    assert_eq!(p.text, "\u{4e2d}");
    assert_eq!(
        p.rect,
        Rectangle { x: 0, y: 0, width: 16 * PX + 2, height: 15 * PX }
    );
    let narrow = Cell { text: "x".to_string(), hl_id: 0, double_width: false };
    let p = cursor_cell(&narrow, &cm, &d);
    assert_eq!(p.fg, d.default_bg);
    assert_eq!(p.bg, d.default_fg);
    assert_eq!(p.rect.width, 8 * PX + 1);
}

#[test]
fn put_segments_in_given_order() {
    let mut ctx = context(8 * 1024 + 512);
    let d = defs();
    let segs = vec![
        Segment { text: "bb".to_string(), hl_id: 0, start: 3, len: 2 },
        Segment { text: "a".to_string(), hl_id: 0, start: 0, len: 1 },
    ];
    let out = put_segments(&mut ctx, &d, segs, 2);
    assert_eq!(out.len(), 2);
    assert_eq!(out[0].text, "bb");
    assert_eq!(out[0].rect, Rectangle { x: 25 * PX, y: 28 * PX, width: 17 * PX, height: 14 * PX });
    assert_eq!(out[1].rect, Rectangle { x: 0, y: 28 * PX, width: 9 * PX, height: 14 * PX });
    assert_eq!(
        ctx.queue_draw_area,
        vec![(25 * PX, 28 * PX, 17 * PX, 14 * PX), (0, 28 * PX, 9 * PX, 14 * PX)]
    );
}

#[test]
fn clear_queues_whole_area() {
    let mut ctx = context(8 * 1024);
    let r = clear(&mut ctx, 640, 480);
    assert_eq!(r, Rectangle { x: 0, y: 0, width: 640 * PX, height: 480 * PX });
    assert_eq!(ctx.queue_draw_area, vec![(0, 0, 640 * PX, 480 * PX)]);
}

#[test]
fn scroll_bands() {
    let reg = GridScrollRegion([2, 10, 0, 80]);
    assert_eq!(
        reg.calc_area(3),
        GridScrollArea { src_top: 5, src_bot: 10, dst_top: 2, dst_bot: 7, clr_top: 7, clr_bot: 10 }
    );
    assert_eq!(
        reg.calc_area(-3),
        GridScrollArea { src_top: 2, src_bot: 7, dst_top: 5, dst_bot: 10, clr_top: 2, clr_bot: 5 }
    );
    assert_eq!(
        reg.calc_area(0),
        GridScrollArea { src_top: 2, src_bot: 10, dst_top: 2, dst_bot: 10, clr_top: 2, clr_bot: 2 }
    );
    assert_eq!(
        reg.calc_area(i64::MIN),
        GridScrollArea {
            src_top: 2,
            src_bot: 2,
            dst_top: 10,
            dst_bot: 10,
            clr_top: 2,
            clr_bot: 10
        }
    );
    assert_eq!(
        reg.calc_area(8),
        GridScrollArea {
            src_top: 10,
            src_bot: 10,
            dst_top: 2,
            dst_bot: 2,
            clr_top: 2,
            clr_bot: 10
        }
    );
}

#[test]
fn scroll_plan_with_fractional_cells() {
    let mut ctx = context(8 * 1024 + 512);
    let area = GridScrollRegion([1, 4, 1, 3]).calc_area(2);
    let p = scroll(&mut ctx, 77, area, 1, 3);
    assert_eq!(p.offset_y, -28 * PX);
    assert_eq!(
        p.rect,
        Rectangle { x: 8 * PX + 512, y: 14 * PX, width: 17 * PX, height: 14 * PX }
    );
    assert_eq!(ctx.queue_draw_area, vec![(8 * PX + 512, 14 * PX, 17 * PX, 14 * PX)]);
    let anim = ctx.surfaces.offset_y_anim.unwrap();
    assert_eq!((anim.start, anim.end, anim.start_time, anim.duration), (0, -28 * PX, 77, 100_000));
}

#[test]
fn surfaces_size_and_animation() {
    let cm = cell_metrics(8 * 1024 + 300, 0);
    let mut s = Surfaces::new(&cm, 24, 80);
    // 80 * 8.29 pixels, rounded up.
    assert_eq!(s.width, 664);
    assert_eq!(s.height, 360);
    assert_eq!(s.offset_y, 0);
    assert!(!s.tick(10));

    s.set_animation(-30 * PX, 0, 10);
    assert_eq!(s.offset_y, -30 * PX);
    assert!(s.offset_y_anim.is_none());
    s.set_animation(12 * PX, -5, 10);
    assert_eq!(s.offset_y, 12 * PX);
    assert!(!s.tick(10));

    s.set_animation(-30 * PX, 300, 1_000);
    assert_eq!(s.offset_y, 0);
    assert!(s.tick(1_000));
    assert_eq!(s.offset_y, 0);
    assert!(s.tick(101_000));
    assert_eq!(s.offset_y, -10 * PX);
    assert!(s.tick(101_000));
    assert_eq!(s.offset_y, -10 * PX);
    assert!(s.tick(300_990));
    // 29.999 pixels up, rounded down to a whole unit.
    assert_eq!(s.offset_y, -30 * PX + 1);
    assert!(s.offset_y_anim.is_some());
    assert!(s.tick(301_000));
    assert_eq!(s.offset_y, -30 * PX);
    assert!(s.offset_y_anim.is_none());
    assert!(!s.tick(400_000));
    assert_eq!((s.width, s.height), (664, 360));

    s.set_animation(5, i64::MAX, 0);
    assert_eq!(s.offset_y_anim.unwrap().duration, i64::MAX);
}

#[test]
fn metrics_fail_without_report() {
    let mut cm = cell_metrics(8 * 1024, 1);
    let before = cm.clone();
    assert!(cm.update(None).is_err());
    assert_eq!(cm.height, before.height);
    assert_eq!(cm.width, before.width);
    assert_eq!(cm.ascent, before.ascent);
    assert_eq!(cm.decent, before.decent);
    assert_eq!(cm.underline_position, before.underline_position);
    assert_eq!(cm.underline_thickness, before.underline_thickness);
}

#[test]
fn metrics_from_report() {
    let cm = cell_metrics(8 * 1024 + 7, 3);
    // 10 + 1.5 pixels and 4.001 + 1.5 pixels, rounded up.
    assert_eq!(cm.ascent, 12 * PX);
    assert_eq!(cm.decent, 6 * PX);
    assert_eq!(cm.height, 18 * PX);
    assert_eq!(cm.width, 8 * PX + 7);
    assert_eq!(cm.underline_position, -1024 - 1536);
    assert_eq!(cm.underline_thickness, 1024);
    let neg = cell_metrics(1, -3);
    assert_eq!(neg.ascent, 9 * PX);
    assert_eq!(neg.decent, 3 * PX);
    assert_eq!(neg.underline_position, -1024 + 1536);
}
