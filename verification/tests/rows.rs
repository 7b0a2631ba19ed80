use linegrid::row::{Cell, GridLineSegment, LineCell, Row, Segment};

fn chunk(text: &str, hl_id: u64, repeat: u64) -> LineCell {
    LineCell { text: text.to_string(), hl_id, repeat, double_width: false }
}

fn line(row: u64, col_start: u64, cells: Vec<LineCell>) -> GridLineSegment {
    GridLineSegment { grid: 1, row, col_start, cells }
}

fn summary(segs: &[Segment]) -> Vec<(usize, usize, u64, String)> {
    segs.iter().map(|s| (s.start, s.len, s.hl_id, s.text.clone())).collect()
}

fn text_of(row: &Row) -> String {
    let mut out = String::new();
    for i in 0..row.len() {
        out.push_str(&row.cell_at(i).unwrap().text);
    }
    out
}

#[test]
fn new_row_is_blank() {
    let row = Row::new(4);
    assert_eq!(row.len(), 4);
    for i in 0..4 {
        let c = row.cell_at(i).unwrap();
        assert_eq!(c.text, " ");
        assert_eq!(c.hl_id, 0);
        assert!(!c.double_width);
    }
    assert!(row.cell_at(4).is_none());
}

#[test]
fn update_then_segments_of_whole_row() {
    let mut row = Row::new(10);
    let affected = row.update(line(0, 0, vec![chunk("A", 0, 10)]));
    assert_eq!(summary(&affected), vec![(0, 10, 0, "AAAAAAAAAA".to_string())]);

    let affected = row.update(line(0, 2, vec![chunk("B", 1, 2)]));
    assert_eq!(summary(&affected), vec![(2, 2, 1, "BB".to_string())]);

    let segs = row.as_segments(0, row.len());
    assert_eq!(
        summary(&segs),
        vec![
            (0, 2, 0, "AA".to_string()),
            (2, 2, 1, "BB".to_string()),
            (4, 6, 0, "AAAAAA".to_string()),
        ]
    );
}

#[test]
fn segments_round_trip() {
    let mut row = Row::new(8);
    row.update(line(
        0,
        1,
        vec![chunk("x", 3, 1), chunk("yz", 3, 2), chunk("", 4, 1), chunk("w", 0, 2)],
    ));
    let segs = row.as_segments(0, row.len());
    let joined: String = segs.iter().map(|s| s.text.clone()).collect();
    assert_eq!(joined, text_of(&row));
    assert_eq!(joined, " xyzyzww ");
    let mut hls = Vec::new();
    for s in &segs {
        for _ in 0..s.len {
            hls.push(s.hl_id);
        }
    }
    let want: Vec<u64> = (0..row.len()).map(|i| row.cell_at(i).unwrap().hl_id).collect();
    assert_eq!(hls, want);
    assert_eq!(want, vec![0, 3, 3, 3, 4, 0, 0, 0]);
}

#[test]
fn segments_of_empty_range() {
    let row = Row::new(3);
    assert!(row.as_segments(2, 2).is_empty());
    assert!(row.as_segments(3, 3).is_empty());
}

#[test]
fn updates_keep_length() {
    let mut row = Row::new(6);
    row.update(line(0, 0, vec![chunk("a", 1, 6)]));
    assert_eq!(row.len(), 6);
    row.update(line(0, 5, vec![chunk("b", 2, 1)]));
    assert_eq!(row.len(), 6);
    row.update(line(0, 3, vec![]));
    assert_eq!(row.len(), 6);
    row.update(line(0, 1, vec![chunk("c", 2, 0), chunk("d", 2, 2)]));
    assert_eq!(row.len(), 6);
    assert_eq!(text_of(&row), "addaab");
}

#[test]
fn resize_truncates_and_pads() {
    let mut row = Row::new(4);
    row.update(line(0, 0, vec![chunk("q", 7, 4)]));
    row.resize(2);
    assert_eq!(row.len(), 2);
    assert_eq!(text_of(&row), "qq");
    row.resize(5);
    assert_eq!(row.len(), 5);
    assert_eq!(text_of(&row), "qq   ");
    assert_eq!(row.cell_at(1).unwrap().hl_id, 7);
    assert_eq!(row.cell_at(2).unwrap().hl_id, 0);
    row.resize(5);
    assert_eq!(text_of(&row), "qq   ");
}

#[test]
fn copy_insert_clear_ranges() {
    let mut a = Row::new(5);
    a.update(line(0, 0, vec![chunk("1", 1, 1), chunk("2", 2, 1), chunk("3", 3, 3)]));
    let part: Vec<Cell> = a.copy_range(1, 3);
    assert_eq!(part.len(), 2);
    assert_eq!(part[0].text, "2");
    assert_eq!(part[1].hl_id, 3);

    let mut b = Row::new(5);
    b.insert_at(2, part);
    assert_eq!(text_of(&b), "  23 ");

    a.clear_range(0, 2);
    assert_eq!(text_of(&a), "  333");
    assert_eq!(a.cell_at(0).unwrap().hl_id, 0);
    a.clear_range(4, 2);
    assert_eq!(text_of(&a), "  333");
    a.clear();
    assert_eq!(text_of(&a), "     ");
}

#[test]
fn width_of_an_update() {
    assert_eq!(line(0, 3, vec![]).width(), Some(0));
    assert_eq!(line(0, 3, vec![chunk("a", 0, 2), chunk("b", 0, 0), chunk("c", 1, 5)]).width(), Some(7));
    assert_eq!(line(0, 0, vec![chunk("a", 0, u64::MAX)]).width(), Some(u64::MAX));
    assert_eq!(line(0, 0, vec![chunk("a", 0, u64::MAX), chunk("b", 0, 1)]).width(), None);
}

#[test]
fn cloned_row_is_equal_and_independent() {
    let mut a = Row::new(3);
    a.update(line(0, 0, vec![chunk("x", 2, 3)]));
    let b = a.clone();
    a.clear();
    assert_eq!(text_of(&b), "xxx");
    assert_eq!(b.cell_at(2).unwrap().hl_id, 2);
    assert_eq!(text_of(&a), "   ");
}
