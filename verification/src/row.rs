//! Rows of cells, line updates and the segments rows are drawn by.

use vstd::prelude::*;
use vstd::string::StringExecFns;

verus! {

/// One character position of the grid. A double-width cell is meant to be
/// followed by a cell with empty text for its right half; rows take the
/// cells they are given and do not enforce this.
pub struct Cell {
    /// Text of the cell: one character, a combining sequence, or nothing for
    /// the right half of a double-width character.
    pub text: String,
    /// Id of the highlight the cell is drawn with.
    pub hl_id: u64,
    /// Whether the character takes two columns.
    pub double_width: bool,
}

/// What a cell holds, as plain values.
pub struct CellView {
    pub text: Seq<char>,
    pub hl_id: u64,
    pub double_width: bool,
}

impl View for Cell {
    type V = CellView;

    open spec fn view(&self) -> CellView {
        CellView { text: self.text@, hl_id: self.hl_id, double_width: self.double_width }
    }
}

/// The cell that blank space is made of: a single space with highlight 0.
pub open spec fn default_cell() -> CellView {
    CellView { text: seq![' '], hl_id: 0, double_width: false }
}

impl Default for Cell {
    fn default() -> (c: Cell)
        ensures
            c@ == default_cell(),
    {
        let text = " ".to_owned();
        proof {
            reveal_strlit(" ");
            assert(text@ =~= seq![' ']);
        }
        Cell { text, hl_id: 0, double_width: false }
    }
}

impl Clone for Cell {
    fn clone(&self) -> (c: Cell)
        ensures
            c@ == self@,
    {
        Cell { text: self.text.clone(), hl_id: self.hl_id, double_width: self.double_width }
    }
}

/// A run of neighbouring cells that share a highlight, batched for one draw
/// call.
pub struct Segment {
    /// Texts of the run's cells, joined in column order.
    pub text: String,
    pub hl_id: u64,
    /// Column of the first cell.
    pub start: usize,
    /// Number of cells.
    pub len: usize,
}

/// What a segment holds, as plain values.
pub struct SegmentView {
    pub text: Seq<char>,
    pub hl_id: u64,
    pub start: int,
    pub len: int,
}

impl View for Segment {
    type V = SegmentView;

    open spec fn view(&self) -> SegmentView {
        SegmentView {
            text: self.text@,
            hl_id: self.hl_id,
            start: self.start as int,
            len: self.len as int,
        }
    }
}

impl Clone for Segment {
    fn clone(&self) -> (s: Segment)
        ensures
            s@ == self@,
    {
        Segment { text: self.text.clone(), hl_id: self.hl_id, start: self.start, len: self.len }
    }
}

/// One chunk of a line update: a cell and how many columns it fills.
pub struct LineCell {
    pub text: String,
    pub hl_id: u64,
    /// Number of consecutive columns that receive this cell.
    pub repeat: u64,
    pub double_width: bool,
}

/// What a chunk holds, as plain values.
pub struct LineCellView {
    pub cell: CellView,
    pub repeat: nat,
}

impl View for LineCell {
    type V = LineCellView;

    open spec fn view(&self) -> LineCellView {
        LineCellView {
            cell: CellView { text: self.text@, hl_id: self.hl_id, double_width: self.double_width },
            repeat: self.repeat as nat,
        }
    }
}

/// A line update: chunks laid out left to right from `col_start` on row `row`
/// of grid `grid`.
pub struct GridLineSegment {
    pub grid: i64,
    pub row: u64,
    pub col_start: u64,
    pub cells: Vec<LineCell>,
}

/// The cells of `v` as plain values.
pub open spec fn cell_views(v: Seq<Cell>) -> Seq<CellView> {
    Seq::new(v.len(), |i: int| v[i]@)
}

/// The chunks of `v` as plain values.
pub open spec fn line_views(v: Seq<LineCell>) -> Seq<LineCellView> {
    Seq::new(v.len(), |i: int| v[i]@)
}

/// The segments of `v` as plain values.
pub open spec fn segment_views(v: Seq<Segment>) -> Seq<SegmentView> {
    Seq::new(v.len(), |i: int| v[i]@)
}

/// The cells that the first `n` chunks spell out, each chunk's cell taken
/// `repeat` times.
pub open spec fn expand(chunks: Seq<LineCellView>, n: int) -> Seq<CellView>
    decreases n,
{
    if n <= 0 {
        Seq::empty()
    } else {
        expand(chunks, n - 1) + Seq::new(chunks[n - 1].repeat, |j: int| chunks[n - 1].cell)
    }
}

/// A row after `cells` are written over it from column `at`.
pub open spec fn overwrite(row: Seq<CellView>, at: int, cells: Seq<CellView>) -> Seq<CellView> {
    Seq::new(
        row.len(),
        |j: int|
            if at <= j < at + cells.len() {
                cells[j - at]
            } else {
                row[j]
            },
    )
}

/// A row with columns `from..to` blanked.
pub open spec fn cleared(row: Seq<CellView>, from: int, to: int) -> Seq<CellView> {
    Seq::new(
        row.len(),
        |j: int|
            if from <= j < to {
                default_cell()
            } else {
                row[j]
            },
    )
}

/// A row cut or padded with blank cells to `n` columns.
pub open spec fn resized(row: Seq<CellView>, n: int) -> Seq<CellView> {
    Seq::new(
        n as nat,
        |j: int|
            if j < row.len() {
                row[j]
            } else {
                default_cell()
            },
    )
}

/// Texts of columns `lo..hi`, joined in column order.
pub open spec fn text_of(cells: Seq<CellView>, lo: int, hi: int) -> Seq<char>
    decreases hi - lo,
{
    if lo >= hi {
        Seq::empty()
    } else {
        text_of(cells, lo, hi - 1) + cells[hi - 1].text
    }
}

impl GridLineSegment {
    /// Number of columns that the update writes, if it can be counted in
    /// `u64`: the sum of its chunks' repeat counts.
    pub fn width(&self) -> (n: Option<u64>)
        ensures
            match n {
                Some(n) => n == line_cells(*self).len(),
                None => line_cells(*self).len() > u64::MAX,
            },
    {
        let count = self.cells.len();
        let ghost chunks = line_views(self.cells@);
        let mut total: u64 = 0;
        let mut k: usize = 0;
        while k < count
            invariant
                k <= count,
                count == self.cells@.len(),
                chunks == line_views(self.cells@),
                total == expand(chunks, k as int).len(),
            decreases count - k,
        {
            let repeat = self.cells[k].repeat;
            assert(chunks[k as int] == self.cells@[k as int]@);
            if repeat > u64::MAX - total {
                proof {
                    lemma_expand_len_mono(chunks, k + 1, count as int);
                }
                return None;
            }
            total = total + repeat;
            k += 1;
        }
        Some(total)
    }
}

/// The segments of a range, extended by one more cell to its right: the cell
/// joins the last segment if it shares its highlight, and starts a segment
/// of its own at column `col` if not.
pub open spec fn extended(segs: Seq<SegmentView>, cell: CellView, col: int) -> Seq<SegmentView> {
    if segs.len() > 0 && segs.last().hl_id == cell.hl_id {
        segs.drop_last().push(
            SegmentView { text: segs.last().text + cell.text, len: segs.last().len + 1,
                ..segs.last() },
        )
    } else {
        segs.push(SegmentView { text: cell.text, hl_id: cell.hl_id, start: col, len: 1 })
    }
}

/// The segments of columns `lo..hi`: maximal runs of cells that share a
/// highlight, in column order.
pub open spec fn segments_of(cells: Seq<CellView>, lo: int, hi: int) -> Seq<SegmentView>
    decreases hi - lo,
{
    if lo >= hi {
        Seq::empty()
    } else {
        extended(segments_of(cells, lo, hi - 1), cells[hi - 1], hi - 1)
    }
}

/// `s` describes a non-empty range of `cells` in which every cell has the
/// segment's highlight, and carries the range's text.
pub open spec fn is_run(cells: Seq<CellView>, s: SegmentView) -> bool {
    &&& s.len >= 1
    &&& 0 <= s.start
    &&& s.start + s.len <= cells.len()
    &&& forall|j: int| s.start <= j < s.start + s.len ==> (#[trigger] cells[j]).hl_id == s.hl_id
    &&& s.text == text_of(cells, s.start, s.start + s.len)
}

/// `segs` is the run-length encoding of columns `lo..hi` by highlight: runs
/// that tile the range in column order, no two neighbours sharing a highlight.
pub open spec fn is_segmentation(
    cells: Seq<CellView>,
    lo: int,
    hi: int,
    segs: Seq<SegmentView>,
) -> bool {
    &&& (segs.len() == 0 <==> lo >= hi)
    &&& forall|i: int| 0 <= i < segs.len() ==> is_run(cells, #[trigger] segs[i])
    &&& segs.len() > 0 ==> segs[0].start == lo && segs.last().start + segs.last().len == hi
    &&& forall|i: int|
        0 <= i < segs.len() - 1 ==> {
            &&& segs[i + 1].start == (#[trigger] segs[i]).start + segs[i].len
            &&& segs[i + 1].hl_id != segs[i].hl_id
        }
}

/// Every cell that chunks spell out is the cell of one of the chunks.
pub proof fn lemma_expand_member(chunks: Seq<LineCellView>, n: int, j: int) -> (k: int)
    requires
        0 <= j < expand(chunks, n).len(),
    ensures
        0 <= k < n,
        expand(chunks, n)[j] == chunks[k].cell,
    decreases n,
{
    if j < expand(chunks, n - 1).len() {
        lemma_expand_member(chunks, n - 1, j)
    } else {
        n - 1
    }
}

/// Every segment of a segmentation of `lo..hi` lies within `lo..hi`.
pub proof fn lemma_segment_within(
    cells: Seq<CellView>,
    lo: int,
    hi: int,
    segs: Seq<SegmentView>,
    i: int,
)
    requires
        is_segmentation(cells, lo, hi, segs),
        0 <= i < segs.len(),
    ensures
        lo <= segs[i].start,
        segs[i].start + segs[i].len <= hi,
        segs[i].len >= 1,
    decreases i,
{
    lemma_end_within(cells, lo, hi, segs, i);
    assert(is_run(cells, segs[i]));
    if i > 0 {
        lemma_segment_within(cells, lo, hi, segs, i - 1);
        assert(segs[i - 1 + 1].start == segs[i - 1].start + segs[i - 1].len);
        assert(is_run(cells, segs[i - 1]));
    }
}

/// The cells that a line update writes, in column order.
pub open spec fn line_cells(line: GridLineSegment) -> Seq<CellView> {
    expand(line_views(line.cells@), line.cells@.len() as int)
}

/// The first `k` chunks spell out no more cells than the first `n`, for
/// `k <= n`.
proof fn lemma_expand_len_mono(chunks: Seq<LineCellView>, k: int, n: int)
    requires
        0 <= k <= n,
    ensures
        expand(chunks, k).len() <= expand(chunks, n).len(),
    decreases n - k,
{
    if k < n {
        lemma_expand_len_mono(chunks, k, n - 1);
    }
}

/// Texts of the first `n` segments, joined in order.
pub open spec fn joined_text(segs: Seq<SegmentView>, n: int) -> Seq<char>
    decreases n,
{
    if n <= 0 {
        Seq::empty()
    } else {
        joined_text(segs, n - 1) + segs[n - 1].text
    }
}

/// Highlight ids of the first `n` segments, each taken once per column of its
/// segment.
pub open spec fn joined_hl_ids(segs: Seq<SegmentView>, n: int) -> Seq<u64>
    decreases n,
{
    if n <= 0 {
        Seq::empty()
    } else {
        joined_hl_ids(segs, n - 1) + Seq::new(segs[n - 1].len as nat, |j: int| segs[n - 1].hl_id)
    }
}

/// Highlight ids of columns `lo..hi`.
pub open spec fn hl_ids_of(cells: Seq<CellView>, lo: int, hi: int) -> Seq<u64> {
    Seq::new((hi - lo) as nat, |j: int| cells[lo + j].hl_id)
}

/// The text of a range is the text of its left part followed by the text of
/// its right part.
proof fn lemma_text_of_split(cells: Seq<CellView>, lo: int, mid: int, hi: int)
    requires
        lo <= mid <= hi,
    ensures
        text_of(cells, lo, hi) == text_of(cells, lo, mid) + text_of(cells, mid, hi),
    decreases hi - mid,
{
    if mid == hi {
        assert(text_of(cells, lo, mid) + text_of(cells, mid, hi) =~= text_of(cells, lo, hi));
    } else {
        lemma_text_of_split(cells, lo, mid, hi - 1);
        assert((text_of(cells, lo, mid) + text_of(cells, mid, hi - 1)) + cells[hi - 1].text
            =~= text_of(cells, lo, mid) + (text_of(cells, mid, hi - 1) + cells[hi - 1].text));
    }
}

/// Column at which the first `n` segments end, for a segmentation that starts
/// at `lo`.
pub open spec fn prefix_end(segs: Seq<SegmentView>, lo: int, n: int) -> int {
    if n <= 0 {
        lo
    } else {
        segs[n - 1].start + segs[n - 1].len
    }
}

proof fn lemma_round_trip_prefix(
    cells: Seq<CellView>,
    lo: int,
    hi: int,
    segs: Seq<SegmentView>,
    n: int,
)
    requires
        0 <= lo <= hi <= cells.len(),
        is_segmentation(cells, lo, hi, segs),
        0 <= n <= segs.len(),
    ensures
        lo <= prefix_end(segs, lo, n) <= hi,
        joined_text(segs, n) == text_of(cells, lo, prefix_end(segs, lo, n)),
        joined_hl_ids(segs, n) == hl_ids_of(cells, lo, prefix_end(segs, lo, n)),
    decreases n,
{
    if n == 0 {
        assert(joined_hl_ids(segs, n) =~= hl_ids_of(cells, lo, lo));
    } else {
        lemma_round_trip_prefix(cells, lo, hi, segs, n - 1);
        let s = segs[n - 1];
        let from = prefix_end(segs, lo, n - 1);
        assert(is_run(cells, s));
        assert(from == s.start) by {
            if n - 1 > 0 {
                assert(segs[n - 2 + 1].start == segs[n - 2].start + segs[n - 2].len);
            }
        }
        lemma_end_within(cells, lo, hi, segs, n - 1);
        lemma_text_of_split(cells, lo, s.start, s.start + s.len);
        assert(joined_hl_ids(segs, n) =~= hl_ids_of(cells, lo, s.start + s.len));
    }
}

/// In a segmentation of `lo..hi`, segment `i` ends at or before `hi`.
proof fn lemma_end_within(cells: Seq<CellView>, lo: int, hi: int, segs: Seq<SegmentView>, i: int)
    requires
        is_segmentation(cells, lo, hi, segs),
        0 <= i < segs.len(),
    ensures
        segs[i].start + segs[i].len <= hi,
    decreases segs.len() - i,
{
    if i < segs.len() - 1 {
        lemma_end_within(cells, lo, hi, segs, i + 1);
        assert(segs[i + 1].start == segs[i].start + segs[i].len);
        assert(is_run(cells, segs[i + 1]));
    }
}

/// Joining the segments of a column range in order gives back the range:
/// the segment texts spell the text of the range, and the segment highlights,
/// each repeated over its segment's columns, are the highlights of the range.
/// With `lo == 0` and `hi == cells.len()` this is the whole row.
pub proof fn lemma_segments_round_trip(
    cells: Seq<CellView>,
    lo: int,
    hi: int,
    segs: Seq<SegmentView>,
)
    requires
        0 <= lo <= hi <= cells.len(),
        is_segmentation(cells, lo, hi, segs),
    ensures
        joined_text(segs, segs.len() as int) == text_of(cells, lo, hi),
        joined_hl_ids(segs, segs.len() as int) == hl_ids_of(cells, lo, hi),
{
    lemma_round_trip_prefix(cells, lo, hi, segs, segs.len() as int);
}

/// A row after the first `n` of a sequence of line updates, applied in order.
pub open spec fn after_updates(row: Seq<CellView>, updates: Seq<GridLineSegment>, n: int) -> Seq<
    CellView,
>
    decreases n,
{
    if n <= 0 {
        row
    } else {
        overwrite(
            after_updates(row, updates, n - 1),
            updates[n - 1].col_start as int,
            line_cells(updates[n - 1]),
        )
    }
}

/// However many line updates are applied to a row, its number of columns
/// stays what it was.
pub proof fn lemma_updates_keep_length(row: Seq<CellView>, updates: Seq<GridLineSegment>, n: int)
    ensures
        after_updates(row, updates, n).len() == row.len(),
    decreases n,
{
    if n > 0 {
        lemma_updates_keep_length(row, updates, n - 1);
    }
}

/// An ordered, fixed-length sequence of cells: one line of the grid.
pub struct Row {
    cells: Vec<Cell>,
}

impl View for Row {
    type V = Seq<CellView>;

    closed spec fn view(&self) -> Seq<CellView> {
        cell_views(self.cells@)
    }
}

impl Clone for Row {
    fn clone(&self) -> (row: Row)
        ensures
            row@ == self@,
    {
        let n = self.cells.len();
        let cells = self.copy_range(0, n);
        let row = Row { cells };
        assert(row@ =~= self@);
        row
    }
}

impl Row {
    /// A row of `len` blank cells.
    pub fn new(len: usize) -> (row: Row)
        ensures
            row@ == Seq::new(len as nat, |j: int| default_cell()),
    {
        let mut cells: Vec<Cell> = Vec::new();
        let mut i: usize = 0;
        while i < len
            invariant
                i <= len,
                cells@.len() == i,
                forall|j: int| 0 <= j < i ==> (#[trigger] cells@[j])@ == default_cell(),
            decreases len - i,
        {
            cells.push(Cell::default());
            i += 1;
        }
        let row = Row { cells };
        assert(row@ =~= Seq::new(len as nat, |j: int| default_cell()));
        row
    }

    /// Number of columns.
    pub fn len(&self) -> (n: usize)
        ensures
            n == self@.len(),
    {
        self.cells.len()
    }

    /// The cell in column `at`, if the row has that column.
    pub fn cell_at(&self, at: usize) -> (c: Option<&Cell>)
        ensures
            at < self@.len() ==> c.is_some() && c.unwrap()@ == self@[at as int],
            at >= self@.len() ==> c.is_none(),
    {
        if at < self.cells.len() {
            Some(&self.cells[at])
        } else {
            None
        }
    }

    /// Cuts the row, or pads it with blank cells, to `new_size` columns.
    pub fn resize(&mut self, new_size: usize)
        ensures
            final(self)@ == resized(old(self)@, new_size as int),
    {
        if self.cells.len() > new_size {
            self.cells.truncate(new_size);
        }
        while self.cells.len() < new_size
            invariant
                old(self).cells@.len() > new_size ==> self.cells@.len() == new_size,
                old(self).cells@.len() <= new_size ==> old(self).cells@.len() <= self.cells@.len()
                    <= new_size,
                forall|j: int|
                    0 <= j < self.cells@.len() ==> (#[trigger] self.cells@[j])@ == resized(
                        old(self)@,
                        new_size as int,
                    )[j],
            decreases new_size - self.cells@.len(),
        {
            self.cells.push(Cell::default());
        }
        assert(self@ =~= resized(old(self)@, new_size as int));
    }

    /// Blanks the whole row.
    pub fn clear(&mut self)
        ensures
            final(self)@ == cleared(old(self)@, 0, old(self)@.len() as int),
    {
        let n = self.cells.len();
        self.clear_range(0, n);
    }

    /// Blanks columns `from..to`.
    pub fn clear_range(&mut self, from: usize, to: usize)
        requires
            to <= old(self)@.len(),
        ensures
            final(self)@ == cleared(old(self)@, from as int, to as int),
    {
        let mut i: usize = from;
        while i < to
            invariant
                to <= self.cells@.len(),
                self.cells@.len() == old(self).cells@.len(),
                from <= i,
                from <= to ==> i <= to,
                from > to ==> i == from,
                forall|j: int|
                    0 <= j < self.cells@.len() ==> (#[trigger] self.cells@[j])@ == (if from <= j
                        < i {
                        default_cell()
                    } else {
                        old(self)@[j]
                    }),
            decreases to - i,
        {
            self.cells.set(i, Cell::default());
            i += 1;
        }
        assert(self@ =~= cleared(old(self)@, from as int, to as int));
    }

    /// A copy of the cells in columns `from..to`.
    pub fn copy_range(&self, from: usize, to: usize) -> (part: Vec<Cell>)
        requires
            from <= to <= self@.len(),
        ensures
            cell_views(part@) == self@.subrange(from as int, to as int),
    {
        let mut part: Vec<Cell> = Vec::new();
        let mut i: usize = from;
        while i < to
            invariant
                from <= i <= to <= self.cells@.len(),
                part@.len() == i - from,
                forall|j: int| 0 <= j < part@.len() ==> (#[trigger] part@[j])@ == self@[from + j],
            decreases to - i,
        {
            part.push(self.cells[i].clone());
            i += 1;
        }
        assert(cell_views(part@) =~= self@.subrange(from as int, to as int));
        part
    }

    /// Writes `cells` over the row from column `at` on.
    pub fn insert_at(&mut self, at: usize, cells: Vec<Cell>)
        requires
            at + cells@.len() <= old(self)@.len(),
        ensures
            final(self)@ == overwrite(old(self)@, at as int, cell_views(cells@)),
    {
        let n = cells.len();
        let m = self.cells.len();
        let mut i: usize = 0;
        while i < n
            invariant
                n == cells@.len(),
                i <= n,
                at + n <= m,
                m == self.cells@.len(),
                self.cells@.len() == old(self).cells@.len(),
                forall|j: int|
                    0 <= j < self.cells@.len() ==> (#[trigger] self.cells@[j])@ == (if at <= j < at
                        + i {
                        cells@[j - at]@
                    } else {
                        old(self)@[j]
                    }),
            decreases n - i,
        {
            self.cells.set(at + i, cells[i].clone());
            i += 1;
        }
        assert(self@ =~= overwrite(old(self)@, at as int, cell_views(cells@)));
    }
    /// Run-length encodes columns `start..end` by highlight.
    pub fn as_segments(&self, start: usize, end: usize) -> (segs: Vec<Segment>)
        requires
            start <= end <= self@.len(),
        ensures
            segment_views(segs@) == segments_of(self@, start as int, end as int),
            is_segmentation(self@, start as int, end as int, segment_views(segs@)),
    {
        let mut segs: Vec<Segment> = Vec::new();
        if start >= end {
            assert(segment_views(segs@) =~= segments_of(self@, start as int, end as int));
            return segs;
        }
        let mut text = self.cells[start].text.clone();
        let mut hl_id = self.cells[start].hl_id;
        let mut seg_start: usize = start;
        let mut i: usize = start + 1;
        assert(text@ =~= text_of(self@, start as int, start + 1)) by {
            assert(text_of(self@, start as int, start as int) =~= Seq::<char>::empty());
        }
        assert(segment_views(segs@).push(
            SegmentView { text: text@, hl_id, start: seg_start as int, len: i - seg_start },
        ) =~= segments_of(self@, start as int, i as int)) by {
            assert(segments_of(self@, start as int, start as int) =~= Seq::<SegmentView>::empty());
        }
        while i < end
            invariant
                start <= seg_start < i <= end <= self.cells@.len(),
                segment_views(segs@).push(
                    SegmentView { text: text@, hl_id, start: seg_start as int, len: i - seg_start },
                ) == segments_of(self@, start as int, i as int),
                forall|j: int| seg_start <= j < i ==> (#[trigger] self@[j]).hl_id == hl_id,
                text@ == text_of(self@, seg_start as int, i as int),
                forall|k: int| 0 <= k < segs@.len() ==> is_run(self@, (#[trigger] segs@[k])@),
                segs@.len() == 0 ==> seg_start == start,
                segs@.len() > 0 ==> {
                    &&& segs@[0]@.start == start
                    &&& segs@[segs@.len() - 1]@.start + segs@[segs@.len() - 1]@.len == seg_start
                    &&& segs@[segs@.len() - 1]@.hl_id != hl_id
                },
                forall|k: int|
                    0 <= k < segs@.len() - 1 ==> {
                        &&& segs@[k + 1]@.start == (#[trigger] segs@[k])@.start + segs@[k]@.len
                        &&& segs@[k + 1]@.hl_id != segs@[k]@.hl_id
                    },
            decreases end - i,
        {
            let cell = &self.cells[i];
            let ghost before = segments_of(self@, start as int, i as int);
            let ghost closed = segment_views(segs@);
            assert(self@[i as int] == cell@);
            if cell.hl_id == hl_id {
                text.append(cell.text.as_str());
                assert(segment_views(segs@).push(
                    SegmentView {
                        text: text@,
                        hl_id,
                        start: seg_start as int,
                        len: i + 1 - seg_start,
                    },
                ) =~= extended(before, cell@, i as int)) by {
                    assert(before.drop_last() =~= closed);
                }
            } else {
                segs.push(Segment { text, hl_id, start: seg_start, len: i - seg_start });
                text = cell.text.clone();
                hl_id = cell.hl_id;
                seg_start = i;
                assert(text@ =~= text_of(self@, i as int, i + 1)) by {
                    assert(text_of(self@, i as int, i as int) =~= Seq::<char>::empty());
                }
                assert(segment_views(segs@) =~= before);
                assert(segment_views(segs@).push(
                    SegmentView { text: text@, hl_id, start: seg_start as int, len: 1 },
                ) =~= extended(before, cell@, i as int));
            }
            i += 1;
        }
        let ghost closed = segment_views(segs@);
        let ghost pending = SegmentView {
            text: text@,
            hl_id,
            start: seg_start as int,
            len: end - seg_start,
        };
        segs.push(Segment { text, hl_id, start: seg_start, len: end - seg_start });
        assert(segment_views(segs@) =~= closed.push(pending));
        proof {
            let sv = segment_views(segs@);
            assert forall|k: int| 0 <= k < sv.len() implies is_run(self@, #[trigger] sv[k]) by {
                assert(sv[k] == segs@[k]@);
            }
            assert forall|k: int| 0 <= k < sv.len() - 1 implies {
                &&& sv[k + 1].start == (#[trigger] sv[k]).start + sv[k].len
                &&& sv[k + 1].hl_id != sv[k].hl_id
            } by {
                assert(sv[k] == segs@[k]@);
                assert(sv[k + 1] == segs@[k + 1]@);
            }
        }
        segs
    }

    /// Applies a line update: writes the update's cells from its first column
    /// on and returns the segments of the columns written.
    pub fn update(&mut self, line: GridLineSegment) -> (segs: Vec<Segment>)
        requires
            line.col_start + line_cells(line).len() <= old(self)@.len(),
        ensures
            final(self)@ == overwrite(old(self)@, line.col_start as int, line_cells(line)),
            final(self)@.len() == old(self)@.len(),
            segment_views(segs@) == segments_of(
                final(self)@,
                line.col_start as int,
                line.col_start + line_cells(line).len(),
            ),
            is_segmentation(
                final(self)@,
                line.col_start as int,
                line.col_start + line_cells(line).len(),
                segment_views(segs@),
            ),
    {
        let n = line.cells.len();
        let len = self.cells.len();
        let ghost chunks = line_views(line.cells@);
        let col_start: usize = line.col_start as usize;
        let mut offset: usize = col_start;
        let mut k: usize = 0;
        while k < n
            invariant
                n == line.cells@.len(),
                chunks == line_views(line.cells@),
                k <= n,
                len == self.cells@.len(),
                len == old(self)@.len(),
                col_start == line.col_start,
                col_start + expand(chunks, n as int).len() <= len,
                offset == col_start + expand(chunks, k as int).len(),
                forall|j: int|
                    0 <= j < len ==> (#[trigger] self.cells@[j])@ == (if col_start <= j < offset {
                        expand(chunks, k as int)[j - col_start]
                    } else {
                        old(self)@[j]
                    }),
            decreases n - k,
        {
            let chunk = &line.cells[k];
            let repeat: u64 = chunk.repeat;
            proof {
                lemma_expand_len_mono(chunks, k + 1, n as int);
                assert(chunks[k as int] == chunk@);
            }
            let mut r: u64 = 0;
            while r < repeat
                invariant
                    r <= repeat,
                    repeat == chunk.repeat,
                    chunks[k as int] == chunk@,
                    k < n,
                    len == self.cells@.len(),
                    offset + repeat <= len,
                    offset == col_start + expand(chunks, k as int).len(),
                    forall|j: int|
                        0 <= j < len ==> (#[trigger] self.cells@[j])@ == (if col_start <= j
                            < offset {
                            expand(chunks, k as int)[j - col_start]
                        } else if offset <= j < offset + r {
                            chunk@.cell
                        } else {
                            old(self)@[j]
                        }),
                decreases repeat - r,
            {
                let cell = Cell {
                    text: chunk.text.clone(),
                    hl_id: chunk.hl_id,
                    double_width: chunk.double_width,
                };
                self.cells.set(offset + (r as usize), cell);
                r += 1;
            }
            offset += repeat as usize;
            k += 1;
        }
        assert(self@ =~= overwrite(old(self)@, line.col_start as int, line_cells(line)));
        self.as_segments(col_start, offset)
    }
}

} // verus!
