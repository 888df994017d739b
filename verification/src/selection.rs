use vstd::prelude::*;

use crate::state::lines_view;
use crate::text::{char_width, char_width_spec, chars_to_string, display_width, str_chars, text_width};

verus! {

/// A cell of the combined history-and-screen grid.
#[derive(Clone, Copy, Debug, PartialEq, Eq, Structural)]
pub struct GridPoint {
    pub row: usize,
    pub col: usize,
}

/// A selection between two cells, `start` first in reading order.
#[derive(Clone, Copy, Debug, PartialEq, Eq, Structural)]
pub struct SelectionRange {
    pub start: GridPoint,
    pub end: GridPoint,
}

/// Reading order on cells: by row, then by column.
pub open spec fn point_le(a: GridPoint, b: GridPoint) -> bool {
    a.row < b.row || (a.row == b.row && a.col <= b.col)
}

/// The range between two cells, whichever was given first.
pub open spec fn range_between(a: GridPoint, b: GridPoint) -> SelectionRange {
    if point_le(a, b) {
        SelectionRange { start: a, end: b }
    } else {
        SelectionRange { start: b, end: a }
    }
}

impl SelectionRange {
    /// The range between two cells, ordered so that `start` comes first.
    pub fn new(a: GridPoint, b: GridPoint) -> (r: SelectionRange)
        ensures
            r == range_between(a, b),
    {
        if a.row < b.row || (a.row == b.row && a.col <= b.col) {
            SelectionRange { start: a, end: b }
        } else {
            SelectionRange { start: b, end: a }
        }
    }
}

/// A cell moved `delta` rows (down when positive), saturating at zero and at
/// the largest `usize`, then clamped to `max_row`; the column is kept.
pub open spec fn shifted_point(point: GridPoint, delta: isize, max_row: usize) -> GridPoint {
    let moved: int = if delta > 0 {
        if point.row + delta <= usize::MAX { point.row + delta } else { usize::MAX as int }
    } else {
        if point.row + delta >= 0 { point.row + delta } else { 0 }
    };
    GridPoint { row: (if moved <= max_row { moved } else { max_row as int }) as usize, col: point.col }
}

/// Moves a cell by whole rows, as when the viewport scrolls under a selection.
pub fn shift_point_row(point: GridPoint, delta: isize, max_row: usize) -> (p: GridPoint)
    ensures
        p == shifted_point(point, delta, max_row),
{
    let row = if delta > 0 {
        point.row.saturating_add(delta as usize)
    } else if delta == 0 {
        point.row
    } else {
        let below: isize = -(delta + 1);
        proof {
            broadcast use vstd::layout::layout_of_primitives;
            vstd::layout::unsigned_int_max_values();
            vstd::layout::signed_int_min_max_values();
            assert(vstd::layout::size_of::<usize>() == vstd::layout::size_of::<isize>());
        }
        assert(0 <= below <= isize::MAX < usize::MAX);
        let magnitude: usize = below as usize + 1;
        assert(magnitude == -delta);
        point.row.saturating_sub(magnitude)
    };
    GridPoint { row: if row < max_row { row } else { max_row }, col: point.col }
}

/// A drag selection: where it began and where the pointer is now.
#[derive(Clone, Debug)]
pub struct SelectionState {
    anchor: Option<GridPoint>,
    active: Option<GridPoint>,
}

/// The option of a cell moved by `shifted_point`.
pub open spec fn shifted_option(p: Option<GridPoint>, delta: isize, max_row: usize) -> Option<GridPoint> {
    match p {
        Some(q) => Some(shifted_point(q, delta, max_row)),
        None => None,
    }
}

impl SelectionState {
    /// The cell where the drag began.
    pub closed spec fn anchor_point(&self) -> Option<GridPoint> {
        self.anchor
    }

    /// The cell the drag has reached.
    pub closed spec fn active_point(&self) -> Option<GridPoint> {
        self.active
    }

    /// The selected range: none until the drag has left the cell where it began.
    pub open spec fn range_spec(&self) -> Option<SelectionRange> {
        match (self.anchor_point(), self.active_point()) {
            (Some(a), Some(b)) => if a == b {
                None
            } else {
                Some(range_between(a, b))
            },
            _ => None,
        }
    }

    /// Starts a drag at `point`.
    pub fn begin(&mut self, point: GridPoint)
        ensures
            final(self).anchor_point() == Some(point),
            final(self).active_point() == Some(point),
    {
        self.anchor = Some(point);
        self.active = Some(point);
    }

    /// Moves the drag to `point`; without a drag in progress nothing changes.
    pub fn update(&mut self, point: GridPoint)
        ensures
            final(self).anchor_point() == old(self).anchor_point(),
            final(self).active_point() == (if old(self).anchor_point() is Some {
                Some(point)
            } else {
                old(self).active_point()
            }),
    {
        if self.anchor.is_some() {
            self.active = Some(point);
        }
    }

    /// Moves both ends by `delta` rows, clamped to `max_row`.
    pub fn shift_rows(&mut self, delta: isize, max_row: usize)
        ensures
            final(self).anchor_point() == shifted_option(old(self).anchor_point(), delta, max_row),
            final(self).active_point() == shifted_option(old(self).active_point(), delta, max_row),
    {
        self.anchor = match self.anchor {
            Some(point) => Some(shift_point_row(point, delta, max_row)),
            None => None,
        };
        self.active = match self.active {
            Some(point) => Some(shift_point_row(point, delta, max_row)),
            None => None,
        };
    }

    /// Drops the selection.
    pub fn clear(&mut self)
        ensures
            final(self).anchor_point() is None,
            final(self).active_point() is None,
    {
        self.anchor = None;
        self.active = None;
    }

    /// The selected range, in reading order.
    pub fn range(&self) -> (r: Option<SelectionRange>)
        ensures
            r == self.range_spec(),
    {
        match (self.anchor, self.active) {
            (Some(anchor), Some(active)) => {
                if anchor == active {
                    None
                } else {
                    Some(SelectionRange::new(anchor, active))
                }
            },
            _ => None,
        }
    }
}

impl Default for SelectionState {
    fn default() -> (s: SelectionState)
        ensures
            s.anchor_point() is None,
            s.active_point() is None,
    {
        SelectionState { anchor: None, active: None }
    }
}

/// A width in columns, saturating at the largest `usize`.
pub open spec fn saturated(n: nat) -> nat {
    if n <= usize::MAX {
        n
    } else {
        usize::MAX as nat
    }
}

/// Whether a character that starts at column `col` belongs to the columns
/// `[start, end)`: a wide character when any cell of it does, a combining mark
/// when the character it attaches to ends inside the range.
pub open spec fn char_in_columns(c: char, col: nat, start: nat, end: nat) -> bool {
    let w = char_width_spec(c);
    if w == 0 {
        col > start && col <= end
    } else {
        saturated(col + w) > start && col < end
    }
}

/// The characters of `s` that lie in the columns `[start, end)`.
pub open spec fn slice_columns(s: Seq<char>, start: nat, end: nat) -> Seq<char>
    decreases s.len(),
{
    if s.len() == 0 {
        Seq::empty()
    } else {
        let prev = slice_columns(s.drop_last(), start, end);
        if char_in_columns(s.last(), saturated(text_width(s.drop_last())), start, end) {
            prev.push(s.last())
        } else {
            prev
        }
    }
}

proof fn lemma_saturated_push(s: Seq<char>, c: char)
    ensures
        saturated(text_width(s.push(c))) == saturated(saturated(text_width(s)) + char_width_spec(c)),
{
    assert(s.push(c).drop_last() == s);
}

fn slice_chars(chars: &Vec<char>, start_col: usize, end_col: usize) -> (out: Vec<char>)
    ensures
        out@ == slice_columns(chars@, start_col as nat, end_col as nat),
{
    let mut out: Vec<char> = Vec::new();
    let mut col: usize = 0;
    let mut i: usize = 0;
    while i < chars.len()
        invariant
            i <= chars@.len(),
            col == saturated(text_width(chars@.take(i as int))),
            out@ == slice_columns(chars@.take(i as int), start_col as nat, end_col as nat),
        decreases chars@.len() - i,
    {
        let ch = chars[i];
        let width = char_width(ch);
        let next_col = col.saturating_add(width);
        proof {
            let t = chars@.take(i + 1);
            assert(t.drop_last() == chars@.take(i as int));
            assert(t.last() == ch);
            lemma_saturated_push(chars@.take(i as int), ch);
            assert(chars@.take(i as int).push(ch) == t);
        }
        if width == 0 {
            if col > start_col && col <= end_col {
                out.push(ch);
            }
        } else if next_col > start_col && col < end_col {
            out.push(ch);
        }
        col = next_col;
        i += 1;
    }
    assert(chars@.take(i as int) == chars@);
    out
}

/// The part of `text` that lies in the display columns `[start_col, end_col)`.
pub fn slice_display_width(text: &str, start_col: usize, end_col: usize) -> (s: String)
    ensures
        s@ == slice_columns(text@, start_col as nat, end_col as nat),
{
    let chars = str_chars(text);
    let out = slice_chars(&chars, start_col, end_col);
    chars_to_string(out.as_slice())
}

/// The columns of row `row` that a selection covers, as text: from the start
/// column on the first row, to the end column on the last, whole rows between.
pub open spec fn row_selection(lines: Seq<Seq<char>>, range: SelectionRange, row: int) -> Seq<char> {
    let line = lines[row];
    let start_col: nat = if row == range.start.row { range.start.col as nat } else { 0 };
    let end_col: nat = if row == range.end.row { range.end.col as nat } else { saturated(text_width(line)) };
    slice_columns(line, start_col, end_col)
}

/// Appends a row's text, separated by a newline from text already there.
pub open spec fn join_row(acc: Seq<char>, piece: Seq<char>) -> Seq<char> {
    if acc.len() == 0 {
        piece
    } else {
        acc.push('\n') + piece
    }
}

/// The selected text of the first `n` rows of a range, rows past the end of
/// `lines` skipped.
pub open spec fn selected_rows(lines: Seq<Seq<char>>, range: SelectionRange, n: nat) -> Seq<char>
    decreases n,
{
    if n == 0 {
        Seq::empty()
    } else {
        let prev = selected_rows(lines, range, (n - 1) as nat);
        let row = range.start.row + n - 1;
        if row < lines.len() {
            join_row(prev, row_selection(lines, range, row))
        } else {
            prev
        }
    }
}

/// The text that a selection covers, rows joined by newlines.
pub open spec fn selected_text_spec(lines: Seq<Seq<char>>, range: SelectionRange) -> Seq<char> {
    if range.start.row <= range.end.row {
        selected_rows(lines, range, (range.end.row - range.start.row + 1) as nat)
    } else {
        Seq::empty()
    }
}

proof fn lemma_selected_rows_past_end(lines: Seq<Seq<char>>, range: SelectionRange, n: nat, m: nat)
    requires
        n <= m,
        range.start.row + n >= lines.len(),
    ensures
        selected_rows(lines, range, m) == selected_rows(lines, range, n),
    decreases m - n,
{
    if m > n {
        lemma_selected_rows_past_end(lines, range, n, (m - 1) as nat);
    }
}

/// The text of `lines` that a selection covers.
pub fn selected_text(lines: &[String], range: SelectionRange) -> (text: String)
    ensures
        text@ == selected_text_spec(lines_view(lines@), range),
{
    let ghost lv = lines_view(lines@);
    let mut output: Vec<char> = Vec::new();
    if range.start.row > range.end.row {
        return chars_to_string(output.as_slice());
    }
    let mut row: usize = range.start.row;
    let ghost mut n: nat = 0;
    while row <= range.end.row && row < lines.len()
        invariant
            range.start.row <= row,
            row <= range.end.row + 1,
            row == range.start.row + n,
            lv == lines_view(lines@),
            output@ == selected_rows(lv, range, n),
        decreases range.end.row + 1 - row,
    {
        let line = &lines[row];
        let chars = str_chars(line.as_str());
        let start_col = if row == range.start.row { range.start.col } else { 0 };
        let end_col = if row == range.end.row { range.end.col } else { display_width(line.as_str()) };
        let mut piece = slice_chars(&chars, start_col, end_col);
        assert(piece@ == row_selection(lv, range, row as int));
        if output.len() > 0 {
            output.push('\n');
        }
        output.append(&mut piece);
        proof {
            n = n + 1;
        }
        row = row + 1;
    }
    proof {
        if row <= range.end.row {
            lemma_selected_rows_past_end(lv, range, n, (range.end.row - range.start.row + 1) as nat);
        }
    }
    chars_to_string(output.as_slice())
}

} // verus!
