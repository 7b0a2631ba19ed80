use linegrid::grid::{Grid, MouseButton, ScrollDirection};
use linegrid::input::{escape_input, event_to_nvim_input, keyname_to_nvim_key, str_eq};
use linegrid::metrics::{Font, FontMetrics};
use linegrid::pointer::{PointerScroll, BUTTON2_MASK, BUTTON3_MASK};

const PX: i64 = 1024;

fn grid() -> Grid {
    let fm = FontMetrics {
        ascent: 10 * 1024,
        descent: 4 * 1024,
        approximate_char_width: 8 * 1024,
        underline_position: -1024,
        underline_thickness: 1024,
    };
    let mut g = Grid::new(1, Font { name: "Monospace".to_string(), size: 12 }, 0, 10, 4, Some(fm), true, 0)
        .ok()
        .unwrap();
    g.resize(10, 4, Some(fm)).ok().unwrap();
    g
}

#[test]
fn names() {
    assert_eq!(ScrollDirection::Up.name(), "up");
    assert_eq!(ScrollDirection::Down.name(), "down");
    assert_eq!(ScrollDirection::Right.name(), "right");
    assert_eq!(ScrollDirection::Left.name(), "left");
    assert_eq!(MouseButton::Left.name(), "left");
    assert_eq!(MouseButton::Middle.name(), "middle");
    assert_eq!(MouseButton::Right.name(), "right");
}

#[test]
fn stepwise_scroll_names_cell_under_pointer() {
    let mut g = grid();
    let pos = (17 * PX + 5, 29 * PX);
    assert_eq!(g.scroll_event(PointerScroll::Up, pos), Some((ScrollDirection::Up, 2, 2)));
    assert_eq!(g.scroll_event(PointerScroll::Down, pos), Some((ScrollDirection::Down, 2, 2)));
    assert_eq!(g.scroll_event(PointerScroll::Left, pos), Some((ScrollDirection::Left, 2, 2)));
    assert_eq!(g.scroll_event(PointerScroll::Right, pos), Some((ScrollDirection::Right, 2, 2)));
    assert_eq!(g.scroll_event(PointerScroll::Other, pos), None);
    assert_eq!(g.scroll_event(PointerScroll::Up, (-3, -1)), Some((ScrollDirection::Up, 0, 0)));
    assert_eq!(g.scroll_delta, (0, 0));
}

#[test]
fn smooth_scroll_gathers_deltas() {
    let mut g = grid();
    let pos = (0, 0);
    assert_eq!(g.scroll_event(PointerScroll::Smooth(100, 600), pos), None);
    assert_eq!(g.scroll_delta, (100, 600));
    assert_eq!(
        g.scroll_event(PointerScroll::Smooth(100, 424), pos),
        Some((ScrollDirection::Down, 0, 0))
    );
    assert_eq!(g.scroll_delta, (200, 0));
    assert_eq!(
        g.scroll_event(PointerScroll::Smooth(0, -1024), pos),
        Some((ScrollDirection::Up, 0, 0))
    );
    assert_eq!(g.scroll_delta, (200, 0));
    assert_eq!(
        g.scroll_event(PointerScroll::Smooth(824, 3), pos),
        Some((ScrollDirection::Right, 0, 0))
    );
    assert_eq!(g.scroll_delta, (0, 3));
    assert_eq!(
        g.scroll_event(PointerScroll::Smooth(-2000, 3), pos),
        Some((ScrollDirection::Left, 0, 0))
    );
    assert_eq!(g.scroll_delta, (0, 6));
    // Vertical goes first.
    assert_eq!(
        g.scroll_event(PointerScroll::Smooth(5000, 5000), pos),
        Some((ScrollDirection::Down, 0, 0))
    );
    assert_eq!(g.scroll_delta, (5000, 0));
    assert_eq!(
        g.scroll_event(PointerScroll::Smooth(i64::MAX, 0), pos),
        Some((ScrollDirection::Right, 0, 0))
    );
    assert_eq!(g.scroll_delta, (0, 0));
}

#[test]
fn drag_reports_only_new_cells() {
    let mut g = grid();
    assert_eq!(g.motion_event(0, (3, 3)), None);
    assert_eq!(g.motion_event(0, (8 * PX, 3)), Some((MouseButton::Left, 0, 1)));
    assert_eq!(g.drag_position, (1, 0));
    assert_eq!(g.motion_event(BUTTON3_MASK, (8 * PX + 9, 3)), None);
    assert_eq!(g.motion_event(BUTTON3_MASK, (8 * PX + 9, 14 * PX)), Some((MouseButton::Right, 1, 1)));
    assert_eq!(g.motion_event(BUTTON2_MASK, (0, 14 * PX)), Some((MouseButton::Middle, 1, 0)));
    assert_eq!(
        g.motion_event(BUTTON2_MASK | BUTTON3_MASK, (0, 0)),
        Some((MouseButton::Left, 0, 0))
    );
}

#[test]
fn buttons() {
    let g = grid();
    assert_eq!(g.button_event(1, (0, 0)), (MouseButton::Left, 0, 0));
    assert_eq!(g.button_event(2, (79 * PX, 55 * PX)), (MouseButton::Middle, 3, 9));
    assert_eq!(g.button_event(3, (80 * PX, 56 * PX)), (MouseButton::Right, 4, 10));
    assert_eq!(g.button_event(9, (0, 0)), (MouseButton::Left, 0, 0));
}

#[test]
fn string_equality() {
    assert!(str_eq("", ""));
    assert!(str_eq("Tab", "Tab"));
    assert!(!str_eq("Tab", "Tap"));
    assert!(!str_eq("Tab", "Ta"));
    assert!(!str_eq("", "a"));
    assert!(str_eq("\u{e9}\u{4e2d}", "\u{e9}\u{4e2d}"));
    assert!(!str_eq("\u{e9}", "e"));
}

#[test]
fn key_names() {
    let table = [
        ("asciicircum", "^"),
        ("slash", "/"),
        ("backslash", "\\"),
        ("dead_circumflex", "^"),
        ("at", "@"),
        ("numbersign", "#"),
        ("dollar", "$"),
        ("percent", "%"),
        ("ampersand", "&"),
        ("asterisk", "*"),
        ("parenleft", "("),
        ("parenright", ")"),
        ("underscore", "_"),
        ("plus", "+"),
        ("minus", "-"),
        ("bracketleft", "["),
        ("bracketright", "]"),
        ("braceleft", "{"),
        ("braceright", "}"),
        ("dead_diaeresis", "\""),
        ("dead_acute", "'"),
        ("less", "<"),
        ("greater", ">"),
        ("comma", ","),
        ("period", "."),
        ("space", "Space"),
        ("BackSpace", "BS"),
        ("Insert", "Insert"),
        ("Return", "CR"),
        ("Escape", "Esc"),
        ("Delete", "Del"),
        ("Page_Up", "PageUp"),
        ("Page_Down", "PageDown"),
        ("Enter", "CR"),
        ("ISO_Left_Tab", "Tab"),
        ("Tab", "Tab"),
        ("Up", "Up"),
        ("Down", "Down"),
        ("Left", "Left"),
        ("Right", "Right"),
        ("Home", "Home"),
        ("End", "End"),
        ("F1", "F1"),
        ("F2", "F2"),
        ("F3", "F3"),
        ("F4", "F4"),
        ("F5", "F5"),
        ("F6", "F6"),
        ("F7", "F7"),
        ("F8", "F8"),
        ("F9", "F9"),
        ("F10", "F10"),
        ("F11", "F11"),
        ("F12", "F12"),
    ];
    for (name, key) in table {
        assert_eq!(keyname_to_nvim_key(name), Some(key));
    }
    assert_eq!(keyname_to_nvim_key("F13"), None);
    assert_eq!(keyname_to_nvim_key("a"), None);
    assert_eq!(keyname_to_nvim_key(""), None);
    assert_eq!(keyname_to_nvim_key("tab"), None);
}

#[test]
fn key_presses_as_input() {
    assert_eq!(event_to_nvim_input(false, false, false, "a", Some('a')), Some("<a>".to_string()));
    assert_eq!(
        event_to_nvim_input(true, true, true, "Return", Some('\r')),
        Some("<S-C-A-CR>".to_string())
    );
    assert_eq!(event_to_nvim_input(false, true, false, "x", Some('x')), Some("<C-x>".to_string()));
    assert_eq!(
        event_to_nvim_input(true, false, true, "less", Some('<')),
        Some("<S-A-<>".to_string())
    );
    assert_eq!(
        event_to_nvim_input(false, false, true, "\u{e9}", Some('\u{e9}')),
        Some("<A-\u{e9}>".to_string())
    );
    assert_eq!(event_to_nvim_input(false, false, false, "Shift_L", None), None);
    assert_eq!(event_to_nvim_input(true, false, false, "Shift_L", Some('x')), None);
    assert_eq!(event_to_nvim_input(false, false, false, "a", None), None);
    assert_eq!(event_to_nvim_input(false, false, false, "", Some('q')), Some("<q>".to_string()));
}

#[test]
fn typed_text_is_escaped() {
    assert_eq!(escape_input(""), "");
    assert_eq!(escape_input("abc"), "abc");
    assert_eq!(escape_input("<"), "<lt>");
    assert_eq!(escape_input("a<b<<c>"), "a<lt>b<lt><lt>c>");
    assert_eq!(escape_input("\u{e9}<lt>"), "\u{e9}<lt>lt>");
}
