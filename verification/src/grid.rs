use vstd::prelude::*;

use crate::cell::{blank_cell, Cell};
use crate::cursor::Cursor;
use crate::style::{plain_style, styled_line_view, Style, StyledLine, StyledSpan};
use crate::text::{char_width, char_width_spec, chars_to_string};

verus! {

/// How many lines that scrolled off the top are kept.
pub const MAX_SCROLLBACK_LINES: usize = 2000;

/// A row of `cols` blank cells in the given style.
pub open spec fn blank_row(cols: nat, style: Style) -> Seq<Cell> {
    Seq::new(cols, |i: int| blank_cell(style))
}

/// `n` rows of `cols` blank cells in the given style.
pub open spec fn blank_rows(n: nat, cols: nat, style: Style) -> Seq<Seq<Cell>> {
    Seq::new(n, |i: int| blank_row(cols, style))
}

/// The most recent lines of a history, at most `MAX_SCROLLBACK_LINES` of them.
pub open spec fn keep_recent(lines: Seq<Seq<Cell>>) -> Seq<Seq<Cell>> {
    if lines.len() > MAX_SCROLLBACK_LINES {
        lines.skip(lines.len() - MAX_SCROLLBACK_LINES)
    } else {
        lines
    }
}

/// The region `(top, bottom)` that scrolling operations act on: the given one
/// (or the whole screen) clamped to the screen, if it spans at least two rows.
pub open spec fn normalized_region_spec(region: Option<(usize, usize)>, rows: usize) -> Option<(usize, usize)> {
    if rows == 0 {
        None
    } else {
        let (t, b) = match region {
            Some(r) => r,
            None => (0usize, (rows - 1) as usize),
        };
        let top = if t < rows { t } else { (rows - 1) as usize };
        let bottom = if b < rows { b } else { (rows - 1) as usize };
        if bottom > top {
            Some((top, bottom))
        } else {
            None
        }
    }
}

/// A count parameter where zero means one.
pub open spec fn max1(n: usize) -> int {
    if n == 0 {
        1
    } else {
        n as int
    }
}

pub open spec fn min_int(a: int, b: int) -> int {
    if a < b {
        a
    } else {
        b
    }
}

/// The cells of `line` in `[from, to)` replaced by blanks in `style`.
pub open spec fn cleared_cells(line: Seq<Cell>, from: int, to: int, style: Style) -> Seq<Cell> {
    Seq::new(line.len(), |j: int| if from <= j < to { blank_cell(style) } else { line[j] })
}

/// A line cut or padded with plain blanks to `cols` cells.
pub open spec fn resized_line(line: Seq<Cell>, cols: nat) -> Seq<Cell> {
    if line.len() > cols {
        line.take(cols as int)
    } else {
        line + blank_row((cols - line.len()) as nat, plain_style())
    }
}

/// The cell written for a character.
pub open spec fn glyph(ch: char, style: Style) -> Cell {
    Cell { ch, wide_continuation: false, style }
}

/// The right half of a wide character.
pub open spec fn continuation(style: Style) -> Cell {
    Cell { ch: ' ', wide_continuation: true, style }
}

/// The characters a line shows: every cell but the right halves of wide characters.
pub open spec fn line_chars(line: Seq<Cell>) -> Seq<char>
    decreases line.len(),
{
    if line.len() == 0 {
        Seq::empty()
    } else {
        let prefix = line_chars(line.drop_last());
        if line.last().wide_continuation {
            prefix
        } else {
            prefix.push(line.last().ch)
        }
    }
}

/// A text without its trailing spaces.
pub open spec fn trim_trailing_spaces(s: Seq<char>) -> Seq<char>
    decreases s.len(),
{
    if s.len() > 0 && s.last() == ' ' {
        trim_trailing_spaces(s.drop_last())
    } else {
        s
    }
}

/// The plain text of a line: its characters without trailing spaces.
pub open spec fn rendered_text(line: Seq<Cell>) -> Seq<char> {
    trim_trailing_spaces(line_chars(line))
}

/// A cell that shows something: a non-space, the half of a wide character,
/// or a colored or inverted background.
pub open spec fn is_visible_cell(c: Cell) -> bool {
    c.ch != ' ' || c.wide_continuation || c.style.background is Some || c.style.inverse
}

/// The length of a line up to and including its last visible cell.
pub open spec fn content_end(line: Seq<Cell>) -> nat
    decreases line.len(),
{
    if line.len() == 0 {
        0
    } else if is_visible_cell(line.last()) {
        line.len()
    } else {
        content_end(line.drop_last())
    }
}

/// The runs of equally styled characters of a sequence of cells, left to
/// right; right halves of wide characters are skipped.
pub open spec fn styled_runs(cells: Seq<Cell>) -> Seq<(Seq<char>, Style)>
    decreases cells.len(),
{
    if cells.len() == 0 {
        Seq::empty()
    } else {
        let runs = styled_runs(cells.drop_last());
        let c = cells.last();
        if c.wide_continuation {
            runs
        } else if runs.len() > 0 && runs.last().1 == c.style {
            runs.update(runs.len() - 1, (runs.last().0.push(c.ch), c.style))
        } else {
            runs.push((seq![c.ch], c.style))
        }
    }
}

/// The styled content of a line: its runs up to the last visible cell.
pub open spec fn styled_text(line: Seq<Cell>) -> Seq<(Seq<char>, Style)> {
    styled_runs(line.take(content_end(line) as int))
}

/// The window `[start, end)` of rows that `visible_lines_from` shows.
pub open spec fn visible_window(rows: nat, start: usize, max_lines: usize) -> (int, int) {
    let count = max1(max_lines);
    let first = if start < rows - 1 { start as int } else { rows - 1 };
    (first, min_int(first + count, rows as int))
}

/// The window `[start, end)` of history rows that `scrollback_lines` shows.
pub open spec fn history_window(len: nat, offset_from_bottom: usize, max_lines: usize) -> (int, int) {
    let end = if offset_from_bottom < len { len - offset_from_bottom } else { 0 };
    let start = if max_lines < end { end - max_lines } else { 0 };
    (start, end)
}

/// CUU: up by `count` rows (at least one), stopping at the first row.
pub open spec fn moved_up(c: Cursor, count: usize) -> Cursor {
    Cursor { row: if c.row >= max1(count) { (c.row - max1(count)) as usize } else { 0 }, ..c }
}

/// CUB: left by `count` columns (at least one), stopping at the first column.
pub open spec fn moved_left(c: Cursor, count: usize) -> Cursor {
    Cursor { col: if c.col >= max1(count) { (c.col - max1(count)) as usize } else { 0 }, ..c }
}

/// A blank screen of the given size with no history.
pub open spec fn fresh_grid(rows: nat, cols: nat) -> GridView {
    GridView { rows, cols, lines: blank_rows(rows, cols, plain_style()), scrollback: Seq::empty() }
}

/// The abstract content of a grid: its size, its visible rows and the rows
/// that scrolled off the top (oldest first).
pub struct GridView {
    pub rows: nat,
    pub cols: nat,
    pub lines: Seq<Seq<Cell>>,
    pub scrollback: Seq<Seq<Cell>>,
}

impl GridView {
    pub open spec fn well_formed(self) -> bool {
        &&& 1 <= self.rows <= usize::MAX
        &&& 1 <= self.cols <= usize::MAX
        &&& self.lines.len() == self.rows
        &&& forall|i: int| 0 <= i < self.lines.len() ==> #[trigger] self.lines[i].len() == self.cols
        &&& self.scrollback.len() <= MAX_SCROLLBACK_LINES
    }

    /// The cursor lies on the screen.
    pub open spec fn holds(self, c: Cursor) -> bool {
        c.row < self.rows && c.col < self.cols
    }

    pub open spec fn with_lines(self, lines: Seq<Seq<Cell>>) -> GridView {
        GridView { lines, ..self }
    }

    /// The top row goes to the history and a blank row enters at the bottom.
    pub open spec fn scrolled_up(self, style: Style) -> GridView {
        GridView {
            lines: self.lines.drop_first().push(blank_row(self.cols, style)),
            scrollback: keep_recent(self.scrollback.push(self.lines[0])),
            ..self
        }
    }

    /// Row `top` is dropped and a blank row enters at `bottom`.
    pub open spec fn region_scrolled_up(self, top: int, bottom: int, style: Style) -> GridView {
        self.with_lines(self.lines.remove(top).insert(bottom, blank_row(self.cols, style)))
    }

    /// Row `bottom` is dropped and a blank row enters at `top`.
    pub open spec fn region_scrolled_down(self, top: int, bottom: int, style: Style) -> GridView {
        self.with_lines(self.lines.remove(bottom).insert(top, blank_row(self.cols, style)))
    }

    /// `n` blank rows enter at `row`; rows past `bottom` are untouched and
    /// the rows pushed below `bottom` are lost.
    pub open spec fn rows_inserted(self, row: int, n: int, bottom: int, style: Style) -> GridView {
        self.with_lines(
            self.lines.take(row) + blank_rows(n as nat, self.cols, style) + self.lines.subrange(row, bottom + 1 - n)
                + self.lines.skip(bottom + 1),
        )
    }

    /// `n` rows at `row` are removed; the rows up to `bottom` move up and
    /// blank rows fill in above `bottom + 1`.
    pub open spec fn rows_deleted(self, row: int, n: int, bottom: int, style: Style) -> GridView {
        self.with_lines(
            self.lines.take(row) + self.lines.subrange(row + n, bottom + 1) + blank_rows(n as nat, self.cols, style)
                + self.lines.skip(bottom + 1),
        )
    }

    /// EL 0: the cursor's row from the cursor column on is blanked.
    pub open spec fn line_cleared_from(self, c: Cursor, style: Style) -> GridView {
        self.with_row(c.row as int, cleared_cells(self.lines[c.row as int], c.col as int, self.cols as int, style))
    }

    /// EL 1: the cursor's row up to and including the cursor column is blanked.
    pub open spec fn line_cleared_to(self, c: Cursor, style: Style) -> GridView {
        self.with_row(
            c.row as int,
            cleared_cells(self.lines[c.row as int], 0, min_int(c.col as int, self.cols - 1) + 1, style),
        )
    }

    /// EL 2: a whole row is blanked (the last one for a row past the screen).
    pub open spec fn entire_line_cleared(self, row: usize, style: Style) -> GridView {
        self.with_row(min_int(row as int, self.rows - 1), blank_row(self.cols, style))
    }

    /// ICH: blanks are inserted at the cursor, pushing the rest of the row
    /// right; cells pushed past the last column are lost.
    pub open spec fn chars_inserted(self, c: Cursor, count: usize, style: Style) -> GridView {
        let row = min_int(c.row as int, self.rows - 1);
        let col = min_int(c.col as int, self.cols - 1);
        let n = min_int(max1(count), self.cols - col);
        let line = self.lines[row];
        self.with_row(row, line.take(col) + blank_row(n as nat, style) + line.subrange(col, self.cols - n))
    }

    /// DCH: cells at the cursor are removed, pulling the rest of the row
    /// left; blanks fill in at the right end.
    pub open spec fn chars_deleted(self, c: Cursor, count: usize, style: Style) -> GridView {
        let row = min_int(c.row as int, self.rows - 1);
        let col = min_int(c.col as int, self.cols - 1);
        let n = min_int(max1(count), self.cols - col);
        let line = self.lines[row];
        self.with_row(row, line.take(col) + line.skip(col + n) + blank_row(n as nat, style))
    }

    /// ECH: cells from the cursor on are blanked in place.
    pub open spec fn chars_erased(self, c: Cursor, count: usize, style: Style) -> GridView {
        let row = min_int(c.row as int, self.rows - 1);
        let col = min_int(c.col as int, self.cols - 1);
        let end = min_int(col + max1(count), self.cols as int);
        self.with_row(row, cleared_cells(self.lines[row], col, end, style))
    }

    /// IL: blank rows enter at the cursor row, inside the scroll region only.
    pub open spec fn blank_lines_inserted(self, c: Cursor, count: usize, region: Option<(usize, usize)>, style: Style) -> GridView {
        match normalized_region_spec(region, self.rows as usize) {
            Some((top, bottom)) => if top <= c.row <= bottom {
                self.rows_inserted(c.row as int, min_int(max1(count), bottom - c.row + 1), bottom as int, style)
            } else {
                self
            },
            None => self,
        }
    }

    /// DL: rows at the cursor row are removed, inside the scroll region only.
    pub open spec fn lines_deleted(self, c: Cursor, count: usize, region: Option<(usize, usize)>, style: Style) -> GridView {
        match normalized_region_spec(region, self.rows as usize) {
            Some((top, bottom)) => if top <= c.row <= bottom {
                self.rows_deleted(c.row as int, min_int(max1(count), bottom - c.row + 1), bottom as int, style)
            } else {
                self
            },
            None => self,
        }
    }

    /// SU: the scroll region moves up by `count` rows.
    pub open spec fn lines_scrolled_up(self, count: usize, region: Option<(usize, usize)>, style: Style) -> GridView {
        match normalized_region_spec(region, self.rows as usize) {
            Some((top, bottom)) => self.rows_deleted(top as int, min_int(max1(count), bottom - top + 1), bottom as int, style),
            None => self,
        }
    }

    /// SD: the scroll region moves down by `count` rows.
    pub open spec fn lines_scrolled_down(self, count: usize, region: Option<(usize, usize)>, style: Style) -> GridView {
        match normalized_region_spec(region, self.rows as usize) {
            Some((top, bottom)) => self.rows_inserted(top as int, min_int(max1(count), bottom - top + 1), bottom as int, style),
            None => self,
        }
    }

    /// ED 0: from the cursor to the end of the screen is blanked.
    pub open spec fn screen_cleared_from(self, c: Cursor, style: Style) -> GridView {
        self.with_lines(
            Seq::new(
                self.rows,
                |i: int|
                    if i < c.row {
                        self.lines[i]
                    } else if i == c.row {
                        cleared_cells(self.lines[i], c.col as int, self.cols as int, style)
                    } else {
                        blank_row(self.cols, style)
                    },
            ),
        )
    }

    /// ED 1: from the start of the screen to the cursor is blanked.
    pub open spec fn screen_cleared_to(self, c: Cursor, style: Style) -> GridView {
        self.with_lines(
            Seq::new(
                self.rows,
                |i: int|
                    if i < c.row {
                        blank_row(self.cols, style)
                    } else if i == c.row {
                        cleared_cells(self.lines[i], 0, min_int(c.col as int, self.cols - 1) + 1, style)
                    } else {
                        self.lines[i]
                    },
            ),
        )
    }

    /// ED 2: the whole screen is blanked.
    pub open spec fn screen_cleared(self, style: Style) -> GridView {
        self.with_lines(blank_rows(self.rows, self.cols, style))
    }

    /// A resize to at least one row and column: rows are cut or padded at
    /// the bottom, each row at the right; the history stays.
    pub open spec fn resized(self, rows: usize, cols: usize) -> GridView {
        let r = if rows == 0 { 1nat } else { rows as nat };
        let c = if cols == 0 { 1nat } else { cols as nat };
        GridView {
            rows: r,
            cols: c,
            lines: Seq::new(r, |i: int| if i < self.rows { resized_line(self.lines[i], c) } else { blank_row(c, plain_style()) }),
            scrollback: self.scrollback,
        }
    }

    /// The position clamped to the screen.
    pub open spec fn clamped(self, row: usize, col: usize) -> Cursor {
        Cursor {
            row: if row < self.rows { row } else { (self.rows - 1) as usize },
            col: if col < self.cols { col } else { (self.cols - 1) as usize },
        }
    }

    /// CUD: down by `count` rows (at least one), stopping at the last row.
    pub open spec fn moved_down(self, c: Cursor, count: usize) -> Cursor {
        Cursor { row: min_int(c.row + max1(count), self.rows - 1) as usize, ..c }
    }

    /// CUF: right by `count` columns (at least one), stopping at the last column.
    pub open spec fn moved_right(self, c: Cursor, count: usize) -> Cursor {
        Cursor { col: min_int(c.col + max1(count), self.cols - 1) as usize, ..c }
    }

    /// Row `row` replaced by `line`.
    pub open spec fn with_row(self, row: int, line: Seq<Cell>) -> GridView {
        self.with_lines(self.lines.update(row, line))
    }
}

/// Writes one character at the cursor and advances it; a cursor below the
/// last row is first moved onto it. A character that
/// does not fit in the rest of the row goes to the next row first. A
/// character on the last column leaves the cursor there and the result
/// `true` (the next character wraps).
pub open spec fn put_char_spec(g: GridView, c: Cursor, ch: char, style: Style) -> (GridView, Cursor, bool) {
    let w = char_width_spec(ch);
    if w == 0 {
        (g, c, false)
    } else {
        let c0 = if c.row >= g.rows { Cursor { row: (g.rows - 1) as usize, ..c } } else { c };
        let (g1, c1) = if c0.col + w > g.cols {
            newline_spec(g, c0)
        } else {
            (g, c0)
        };
        let line = g1.lines[c1.row as int].update(c1.col as int, glyph(ch, style));
        let line2 = if w == 2 && c1.col + 1 < g.cols {
            line.update(c1.col + 1, continuation(style))
        } else {
            line
        };
        let g2 = g1.with_row(c1.row as int, line2);
        if c1.col + w >= g.cols {
            (g2, Cursor { col: (g.cols - 1) as usize, ..c1 }, true)
        } else {
            (g2, Cursor { col: (c1.col + w) as usize, ..c1 }, false)
        }
    }
}

/// Backspace: the cursor moves one column left and erases that cell (and
/// the left half too, when it lands on the right half of a wide character).
pub open spec fn backspace_spec(g: GridView, c: Cursor) -> (GridView, Cursor) {
    if c.col == 0 {
        (g, c)
    } else {
        let col1 = c.col - 1;
        let line = g.lines[c.row as int];
        if line[col1].wide_continuation && col1 > 0 {
            (
                g.with_row(
                    c.row as int,
                    line.update(col1, blank_cell(plain_style())).update(col1 - 1, blank_cell(plain_style())),
                ),
                Cursor { col: (col1 - 1) as usize, ..c },
            )
        } else {
            (g.with_row(c.row as int, line.update(col1, blank_cell(plain_style()))), Cursor { col: col1 as usize, ..c })
        }
    }
}

/// Line feed: the cursor goes to the start of the next row, scrolling the
/// whole screen up when it is on the last row.
pub open spec fn newline_spec(g: GridView, c: Cursor) -> (GridView, Cursor) {
    if c.row + 1 >= g.rows {
        (g.scrolled_up(plain_style()), Cursor { row: c.row, col: 0 })
    } else {
        (g, Cursor { row: (c.row + 1) as usize, col: 0 })
    }
}

/// Index: the cursor moves down one row (same column), scrolling the screen
/// up with blanks in `style` when it is on the last row.
pub open spec fn index_spec(g: GridView, c: Cursor, style: Style) -> (GridView, Cursor) {
    if c.row + 1 >= g.rows {
        (g.scrolled_up(style), c)
    } else {
        (g, Cursor { row: (c.row + 1) as usize, ..c })
    }
}

/// Reverse index: the cursor moves up one row, scrolling the screen down
/// when it is on the first row.
pub open spec fn reverse_index_spec(g: GridView, c: Cursor, style: Style) -> (GridView, Cursor) {
    if c.row == 0 {
        (g.region_scrolled_down(0, g.rows - 1, style), c)
    } else {
        (g, Cursor { row: (c.row - 1) as usize, ..c })
    }
}

/// Line feed inside a scroll region.
pub open spec fn newline_in_region_spec(
    g: GridView,
    c: Cursor,
    region: Option<(usize, usize)>,
    style: Style,
) -> (GridView, Cursor) {
    match region {
        None => newline_spec(g, c),
        Some(_) => match normalized_region_spec(region, g.rows as usize) {
            None => newline_spec(g, c),
            Some((top, bottom)) => {
                if c.row == bottom {
                    (g.region_scrolled_up(top as int, bottom as int, style), Cursor { col: 0, ..c })
                } else if top <= c.row < bottom {
                    (g, Cursor { row: (c.row + 1) as usize, col: 0 })
                } else {
                    newline_spec(g, c)
                }
            },
        },
    }
}

/// Index inside a scroll region.
pub open spec fn index_in_region_spec(
    g: GridView,
    c: Cursor,
    region: Option<(usize, usize)>,
    style: Style,
) -> (GridView, Cursor) {
    match normalized_region_spec(region, g.rows as usize) {
        None => index_spec(g, c, style),
        Some((top, bottom)) => {
            if c.row == bottom {
                (g.region_scrolled_up(top as int, bottom as int, style), c)
            } else if top <= c.row < bottom {
                (g, Cursor { row: (c.row + 1) as usize, ..c })
            } else {
                index_spec(g, c, style)
            }
        },
    }
}

/// Reverse index inside a scroll region.
pub open spec fn reverse_index_in_region_spec(
    g: GridView,
    c: Cursor,
    region: Option<(usize, usize)>,
    style: Style,
) -> (GridView, Cursor) {
    match normalized_region_spec(region, g.rows as usize) {
        None => reverse_index_spec(g, c, style),
        Some((top, bottom)) => {
            if c.row == top {
                (g.region_scrolled_down(top as int, bottom as int, style), c)
            } else if top < c.row <= bottom {
                (g, Cursor { row: (c.row - 1) as usize, ..c })
            } else {
                reverse_index_spec(g, c, style)
            }
        },
    }
}

/// The character grid of a terminal screen plus its scrollback history.
pub struct Grid {
    rows: usize,
    cols: usize,
    lines: Vec<Vec<Cell>>,
    scrollback: Vec<Vec<Cell>>,
}

impl View for Grid {
    type V = GridView;

    closed spec fn view(&self) -> GridView {
        GridView {
            rows: self.rows as nat,
            cols: self.cols as nat,
            lines: self.lines@.map_values(|l: Vec<Cell>| l@),
            scrollback: self.scrollback@.map_values(|l: Vec<Cell>| l@),
        }
    }
}

pub fn normalized_region(region: Option<(usize, usize)>, rows: usize) -> (r: Option<(usize, usize)>)
    ensures
        r == normalized_region_spec(region, rows),
        r matches Some((t, b)) ==> t < b < rows,
{
    if rows == 0 {
        return None;
    }
    let (top, bottom) = match region {
        Some(r) => r,
        None => (0, rows - 1),
    };
    let top = if top < rows { top } else { rows - 1 };
    let bottom = if bottom < rows { bottom } else { rows - 1 };
    if bottom > top {
        Some((top, bottom))
    } else {
        None
    }
}

proof fn lemma_content_end_bound(line: Seq<Cell>)
    ensures
        content_end(line) <= line.len(),
    decreases line.len(),
{
    if line.len() > 0 {
        lemma_content_end_bound(line.drop_last());
    }
}

pub fn cell_has_visible_style(cell: &Cell) -> (b: bool)
    ensures
        b == (cell.style.background is Some || cell.style.inverse),
{
    cell.style().background.is_some() || cell.style().inverse
}

/// The index just past the last visible cell of a line, or 0.
pub fn last_nonblank_cell_index(line: &[Cell]) -> (end: usize)
    ensures
        end == content_end(line@),
{
    let mut end = line.len();
    assert(line@.take(end as int) == line@);
    while end > 0
        invariant
            end <= line@.len(),
            content_end(line@) == content_end(line@.take(end as int)),
        decreases end,
    {
        let cell = line[end - 1];
        assert(line@.take(end as int).drop_last() == line@.take(end - 1));
        if cell.ch() != ' ' || cell.is_wide_continuation() || cell_has_visible_style(&cell) {
            return end;
        }
        end -= 1;
    }
    end
}

/// Drops the trailing spaces of a text.
pub fn trim_trailing_blanks(text: &mut Vec<char>)
    ensures
        final(text)@ == trim_trailing_spaces(old(text)@),
{
    while text.len() > 0 && text[text.len() - 1] == ' '
        invariant
            trim_trailing_spaces(text@) == trim_trailing_spaces(old(text)@),
        decreases text@.len(),
    {
        text.pop();
    }
}

/// The plain text of a line.
pub fn render_line(line: &[Cell]) -> (text: String)
    ensures
        text@ == rendered_text(line@),
{
    let mut chars: Vec<char> = Vec::new();
    let mut i: usize = 0;
    while i < line.len()
        invariant
            i <= line@.len(),
            chars@ == line_chars(line@.take(i as int)),
        decreases line@.len() - i,
    {
        assert(line@.take(i + 1).drop_last() == line@.take(i as int));
        if !line[i].is_wide_continuation() {
            chars.push(line[i].ch());
        }
        i += 1;
    }
    assert(line@.take(i as int) == line@);
    trim_trailing_blanks(&mut chars);
    chars_to_string(chars.as_slice())
}

/// The styled runs of a line up to its last visible cell.
pub fn render_styled_line(line: &[Cell]) -> (styled: StyledLine)
    ensures
        styled_line_view(styled) == styled_text(line@),
{
    let end = last_nonblank_cell_index(line);
    proof {
        lemma_content_end_bound(line@);
    }
    let ghost cells = line@.take(end as int);
    let mut texts: Vec<Vec<char>> = Vec::new();
    let mut styles: Vec<Style> = Vec::new();
    let mut i: usize = 0;
    while i < end
        invariant
            end <= line@.len(),
            cells == line@.take(end as int),
            i <= end,
            texts@.len() == styles@.len(),
            styled_runs(cells.take(i as int)) == Seq::new(texts@.len(), |k: int| (texts@[k]@, styles@[k])),
        decreases end - i,
    {
        let cell = line[i];
        let ghost runs = styled_runs(cells.take(i as int));
        assert(cells.take(i + 1).drop_last() == cells.take(i as int));
        assert(cells.take(i + 1).last() == cell);
        if !cell.is_wide_continuation() {
            let n = texts.len();
            if n > 0 && styles[n - 1] == cell.style() {
                let mut last = texts.pop().unwrap();
                last.push(cell.ch());
                texts.push(last);
                proof {
                    assert(Seq::new(texts@.len(), |k: int| (texts@[k]@, styles@[k])) =~= runs.update(
                        runs.len() - 1,
                        (runs.last().0.push(cell.ch), cell.style),
                    ));
                }
            } else {
                let mut fresh: Vec<char> = Vec::new();
                fresh.push(cell.ch());
                assert(fresh@ == seq![cell.ch]);
                texts.push(fresh);
                styles.push(cell.style());
                proof {
                    assert(Seq::new(texts@.len(), |k: int| (texts@[k]@, styles@[k])) =~= runs.push(
                        (seq![cell.ch], cell.style),
                    ));
                }
            }
        }
        i += 1;
    }
    assert(cells.take(end as int) == cells);
    let mut spans: Vec<StyledSpan> = Vec::new();
    let mut k: usize = 0;
    while k < texts.len()
        invariant
            k <= texts@.len(),
            texts@.len() == styles@.len(),
            spans@.len() == k,
            forall|j: int| 0 <= j < k ==> #[trigger] spans@[j].text@ == texts@[j]@ && spans@[j].style == styles@[j],
        decreases texts@.len() - k,
    {
        let text = chars_to_string(texts[k].as_slice());
        spans.push(StyledSpan { text, style: styles[k] });
        k += 1;
    }
    let styled = StyledLine { spans };
    assert(styled_line_view(styled) =~= styled_text(line@));
    styled
}

/// Cuts or pads a line with plain blanks to `cols` cells.
pub fn resize_line(line: &mut Vec<Cell>, cols: usize)
    ensures
        final(line)@ == resized_line(old(line)@, cols as nat),
{
    if line.len() > cols {
        line.truncate(cols);
    } else {
        let ghost l0 = line@;
        let missing = cols - line.len();
        let mut k: usize = 0;
        while k < missing
            invariant
                k <= missing,
                missing == cols - l0.len(),
                line@ == l0 + blank_row(k as nat, plain_style()),
            decreases missing - k,
        {
            line.push(Cell::blank());
            k += 1;
            assert(line@ =~= l0 + blank_row(k as nat, plain_style()));
        }
    }
}

/// A row of blank cells in the plain style.
pub fn blank_line(cols: usize) -> (line: Vec<Cell>)
    ensures
        line@ == blank_row(cols as nat, plain_style()),
{
    blank_line_with_style(cols, Style::plain())
}

/// A row of blank cells in the given style.
pub fn blank_line_with_style(cols: usize, style: Style) -> (line: Vec<Cell>)
    ensures
        line@ == blank_row(cols as nat, style),
{
    let mut line: Vec<Cell> = Vec::new();
    let mut i: usize = 0;
    while i < cols
        invariant
            i <= cols,
            line@ == blank_row(i as nat, style),
        decreases cols - i,
    {
        line.push(Cell::blank_with_style(style));
        i += 1;
        assert(line@ =~= blank_row(i as nat, style));
    }
    line
}

impl Grid {
    pub open spec fn wf(&self) -> bool {
        self@.well_formed()
    }

    proof fn lemma_view(&self)
        ensures
            self@.rows == self.rows,
            self@.cols == self.cols,
            self@.lines.len() == self.lines@.len(),
            forall|i: int| 0 <= i < self.lines@.len() ==> #[trigger] self@.lines[i] == self.lines@[i]@,
            self@.scrollback.len() == self.scrollback@.len(),
            forall|i: int| 0 <= i < self.scrollback@.len() ==> #[trigger] self@.scrollback[i] == self.scrollback@[i]@,
    {
    }

    /// A blank grid of at least one row and one column.
    pub fn new(rows: usize, cols: usize) -> (g: Grid)
        ensures
            g.wf(),
            g@ == fresh_grid(if rows == 0 { 1nat } else { rows as nat }, if cols == 0 { 1nat } else { cols as nat }),
    {
        let rows = if rows == 0 { 1 } else { rows };
        let cols = if cols == 0 { 1 } else { cols };
        let mut lines: Vec<Vec<Cell>> = Vec::new();
        let mut i: usize = 0;
        while i < rows
            invariant
                i <= rows,
                lines@.len() == i,
                forall|k: int| 0 <= k < i ==> #[trigger] lines@[k]@ == blank_row(cols as nat, plain_style()),
            decreases rows - i,
        {
            lines.push(blank_line(cols));
            i += 1;
        }
        let g = Grid { rows, cols, lines, scrollback: Vec::new() };
        proof {
            g.lemma_view();
            assert(g@.lines =~= blank_rows(g@.rows, g@.cols, plain_style()));
            assert(g@.scrollback =~= Seq::<Seq<Cell>>::empty());
        }
        g
    }

    pub fn rows(&self) -> (r: usize)
        ensures
            r == self@.rows,
    {
        self.rows
    }

    pub fn cols(&self) -> (c: usize)
        ensures
            c == self@.cols,
    {
        self.cols
    }

    pub fn scrollback_len(&self) -> (n: usize)
        ensures
            n == self@.scrollback.len(),
    {
        proof {
            self.lemma_view();
        }
        self.scrollback.len()
    }

    /// Appends a row to the history, forgetting the oldest beyond the limit.
    pub fn push_scrollback(&mut self, line: Vec<Cell>)
        requires
            old(self)@.scrollback.len() <= MAX_SCROLLBACK_LINES,
        ensures
            final(self)@ == (GridView { scrollback: keep_recent(old(self)@.scrollback.push(line@)), ..old(self)@ }),
            old(self).wf() ==> final(self).wf(),
    {
        proof {
            self.lemma_view();
        }
        let ghost old_sb = self@.scrollback;
        self.scrollback.push(line);
        if self.scrollback.len() > MAX_SCROLLBACK_LINES {
            self.scrollback.remove(0);
        }
        proof {
            self.lemma_view();
            let pushed = old_sb.push(line@);
            assert(self@.scrollback =~= keep_recent(pushed));
            assert(self@.lines =~= old(self)@.lines);
        }
    }

    pub fn scroll_up_with_style(&mut self, style: Style)
        requires
            old(self).wf(),
        ensures
            final(self)@ == old(self)@.scrolled_up(style),
            final(self).wf(),
    {
        proof {
            self.lemma_view();
        }
        let ghost g0 = self@;
        let line = self.lines.remove(0);
        proof {
            self.lemma_view();
            assert(self@.lines =~= g0.lines.drop_first());
        }
        self.push_scrollback(line);
        let ghost mid = self@.lines;
        let blank = blank_line_with_style(self.cols, style);
        self.lines.push(blank);
        proof {
            self.lemma_view();
            assert(self@.lines =~= mid.push(blank_row(g0.cols, style)));
            assert(self@.lines =~= g0.scrolled_up(style).lines);
            assert(self@.scrollback =~= g0.scrolled_up(style).scrollback);
        }
    }

    pub fn scroll_up(&mut self)
        requires
            old(self).wf(),
        ensures
            final(self)@ == old(self)@.scrolled_up(plain_style()),
            final(self).wf(),
    {
        self.scroll_up_with_style(Style::plain());
    }

    pub fn scroll_up_region(&mut self, top: usize, bottom: usize, style: Style)
        requires
            old(self).wf(),
            top <= bottom < old(self)@.rows,
        ensures
            final(self)@ == old(self)@.region_scrolled_up(top as int, bottom as int, style),
            final(self).wf(),
    {
        proof {
            self.lemma_view();
        }
        let ghost g0 = self@;
        self.lines.remove(top);
        let blank = blank_line_with_style(self.cols, style);
        self.lines.insert(bottom, blank);
        proof {
            self.lemma_view();
            assert(self@.lines =~= g0.region_scrolled_up(top as int, bottom as int, style).lines);
        }
    }

    pub fn scroll_down_region(&mut self, top: usize, bottom: usize, style: Style)
        requires
            old(self).wf(),
            top <= bottom < old(self)@.rows,
        ensures
            final(self)@ == old(self)@.region_scrolled_down(top as int, bottom as int, style),
            final(self).wf(),
    {
        proof {
            self.lemma_view();
        }
        let ghost g0 = self@;
        self.lines.remove(bottom);
        let blank = blank_line_with_style(self.cols, style);
        self.lines.insert(top, blank);
        proof {
            self.lemma_view();
            assert(self@.lines =~= g0.region_scrolled_down(top as int, bottom as int, style).lines);
        }
    }

    pub fn index(&mut self, cursor: &mut Cursor, style: Style)
        requires
            old(self).wf(),
            old(cursor).row < old(self)@.rows,
        ensures
            (final(self)@, *final(cursor)) == index_spec(old(self)@, *old(cursor), style),
            final(self).wf(),
            final(cursor).row < final(self)@.rows,
            final(cursor).col == old(cursor).col,
    {
        if cursor.row + 1 >= self.rows {
            self.scroll_up_with_style(style);
        } else {
            cursor.row += 1;
        }
    }

    pub fn reverse_index(&mut self, cursor: &mut Cursor, style: Style)
        requires
            old(self).wf(),
            old(cursor).row < old(self)@.rows,
        ensures
            (final(self)@, *final(cursor)) == reverse_index_spec(old(self)@, *old(cursor), style),
            final(self).wf(),
            final(cursor).row < final(self)@.rows,
            final(cursor).col == old(cursor).col,
    {
        if cursor.row == 0 {
            let last = self.rows - 1;
            self.scroll_down_region(0, last, style);
        } else {
            cursor.row -= 1;
        }
    }

    pub fn carriage_return(&mut self, cursor: &mut Cursor)
        ensures
            *final(self) == *old(self),
            *final(cursor) == (Cursor { col: 0, ..*old(cursor) }),
    {
        cursor.col = 0;
    }

    pub fn newline(&mut self, cursor: &mut Cursor)
        requires
            old(self).wf(),
            old(cursor).row < old(self)@.rows,
        ensures
            (final(self)@, *final(cursor)) == newline_spec(old(self)@, *old(cursor)),
            final(self).wf(),
            final(self)@.holds(*final(cursor)),
    {
        cursor.col = 0;
        if cursor.row + 1 >= self.rows {
            self.scroll_up();
        } else {
            cursor.row += 1;
        }
    }

    pub fn newline_in_region(&mut self, cursor: &mut Cursor, region: Option<(usize, usize)>, style: Style)
        requires
            old(self).wf(),
            old(cursor).row < old(self)@.rows,
        ensures
            (final(self)@, *final(cursor)) == newline_in_region_spec(old(self)@, *old(cursor), region, style),
            final(self).wf(),
            final(self)@.holds(*final(cursor)),
    {
        if region.is_none() {
            self.newline(cursor);
            return;
        }
        match normalized_region(region, self.rows) {
            None => {
                self.newline(cursor);
            },
            Some((top, bottom)) => {
                if cursor.row == bottom {
                    cursor.col = 0;
                    self.scroll_up_region(top, bottom, style);
                } else if cursor.row >= top && cursor.row < bottom {
                    cursor.col = 0;
                    cursor.row += 1;
                } else {
                    self.newline(cursor);
                }
            },
        }
    }

    pub fn index_in_region(&mut self, cursor: &mut Cursor, region: Option<(usize, usize)>, style: Style)
        requires
            old(self).wf(),
            old(cursor).row < old(self)@.rows,
        ensures
            (final(self)@, *final(cursor)) == index_in_region_spec(old(self)@, *old(cursor), region, style),
            final(self).wf(),
            final(cursor).row < final(self)@.rows,
            final(cursor).col == old(cursor).col,
    {
        match normalized_region(region, self.rows) {
            None => {
                self.index(cursor, style);
            },
            Some((top, bottom)) => {
                if cursor.row == bottom {
                    self.scroll_up_region(top, bottom, style);
                } else if cursor.row >= top && cursor.row < bottom {
                    cursor.row += 1;
                } else {
                    self.index(cursor, style);
                }
            },
        }
    }

    pub fn reverse_index_in_region(&mut self, cursor: &mut Cursor, region: Option<(usize, usize)>, style: Style)
        requires
            old(self).wf(),
            old(cursor).row < old(self)@.rows,
        ensures
            (final(self)@, *final(cursor)) == reverse_index_in_region_spec(old(self)@, *old(cursor), region, style),
            final(self).wf(),
            final(cursor).row < final(self)@.rows,
            final(cursor).col == old(cursor).col,
    {
        match normalized_region(region, self.rows) {
            None => {
                self.reverse_index(cursor, style);
            },
            Some((top, bottom)) => {
                if cursor.row == top {
                    self.scroll_down_region(top, bottom, style);
                } else if cursor.row > top && cursor.row <= bottom {
                    cursor.row -= 1;
                } else {
                    self.reverse_index(cursor, style);
                }
            },
        }
    }

    pub fn move_cursor(&self, cursor: &mut Cursor, row: usize, col: usize)
        requires
            self.wf(),
        ensures
            *final(cursor) == self@.clamped(row, col),
    {
        cursor.row = if row < self.rows { row } else { self.rows - 1 };
        cursor.col = if col < self.cols { col } else { self.cols - 1 };
    }

    pub fn move_up(&self, cursor: &mut Cursor, count: usize)
        ensures
            *final(cursor) == moved_up(*old(cursor), count),
    {
        let count = if count == 0 { 1 } else { count };
        cursor.row = cursor.row.saturating_sub(count);
    }

    pub fn move_down(&self, cursor: &mut Cursor, count: usize)
        requires
            self.wf(),
        ensures
            *final(cursor) == self@.moved_down(*old(cursor), count),
    {
        let count = if count == 0 { 1 } else { count };
        let target = cursor.row.saturating_add(count);
        cursor.row = if target < self.rows - 1 { target } else { self.rows - 1 };
    }

    pub fn move_right(&self, cursor: &mut Cursor, count: usize)
        requires
            self.wf(),
        ensures
            *final(cursor) == self@.moved_right(*old(cursor), count),
    {
        let count = if count == 0 { 1 } else { count };
        let target = cursor.col.saturating_add(count);
        cursor.col = if target < self.cols - 1 { target } else { self.cols - 1 };
    }

    pub fn move_left(&self, cursor: &mut Cursor, count: usize)
        ensures
            *final(cursor) == moved_left(*old(cursor), count),
    {
        let count = if count == 0 { 1 } else { count };
        cursor.col = cursor.col.saturating_sub(count);
    }

    pub fn put_char(&mut self, cursor: &mut Cursor, ch: char, style: Style) -> (wrapped: bool)
        requires
            old(self).wf(),

        ensures
            (final(self)@, *final(cursor), wrapped) == put_char_spec(old(self)@, *old(cursor), ch, style),
            final(self).wf(),
            char_width_spec(ch) > 0 || old(self)@.holds(*old(cursor)) ==> final(self)@.holds(*final(cursor)),
    {
        let width = char_width(ch);
        if width == 0 {
            return false;
        }
        let ghost g0 = self@;
        if cursor.row >= self.rows {
            cursor.row = self.rows - 1;
        }
        if cursor.col >= self.cols || width > self.cols - cursor.col {
            self.newline(cursor);
        }
        let ghost g1 = self@;
        proof {
            self.lemma_view();
            assert(self@.lines[cursor.row as int].len() == self@.cols);
        }
        let row = cursor.row;
        let col = cursor.col;
        self.lines[row][col] = Cell { ch, wide_continuation: false, style };
        if width == 2 && 1 < self.cols - col {
            self.lines[row][col + 1] = Cell { ch: ' ', wide_continuation: true, style };
        }
        proof {
            self.lemma_view();
            let line = g1.lines[row as int].update(col as int, glyph(ch, style));
            let line2 = if width == 2 && col + 1 < g1.cols {
                line.update(col + 1, continuation(style))
            } else {
                line
            };
            assert(self@.lines[row as int] =~= line2);
            assert(self@.lines =~= g1.with_row(row as int, line2).lines);
        }
        if width >= self.cols - col {
            cursor.col = self.cols - 1;
            true
        } else {
            cursor.col = col + width;
            false
        }
    }

    pub fn backspace(&mut self, cursor: &mut Cursor)
        requires
            old(self).wf(),
            old(cursor).row < old(self)@.rows,
            old(cursor).col <= old(self)@.cols,
        ensures
            (final(self)@, *final(cursor)) == backspace_spec(old(self)@, *old(cursor)),
            final(self).wf(),
            final(self)@.holds(*final(cursor)),
    {
        proof {
            self.lemma_view();
        }
        let ghost g0 = self@;
        if cursor.col > 0 {
            let row = cursor.row;
            assert(self@.lines[row as int].len() == self@.cols);
            cursor.col -= 1;
            if self.lines[row][cursor.col].is_wide_continuation() && cursor.col > 0 {
                self.lines[row][cursor.col] = Cell::blank();
                cursor.col -= 1;
            }
            self.lines[row][cursor.col] = Cell::blank();
            proof {
                self.lemma_view();
                let spec = backspace_spec(g0, *old(cursor)).0;
                assert(self@.lines[row as int] =~= spec.lines[row as int]);
                assert(self@.lines =~= spec.lines);
            }
        }
    }

    /// Blanks the cells of row `row` in `[from, to)`.
    fn clear_cells(&mut self, row: usize, from: usize, to: usize, style: Style)
        requires
            old(self).wf(),
            row < old(self)@.rows,
            from <= to <= old(self)@.cols,
        ensures
            final(self)@ == old(self)@.with_row(
                row as int,
                cleared_cells(old(self)@.lines[row as int], from as int, to as int, style),
            ),
            final(self).wf(),
    {
        proof {
            self.lemma_view();
        }
        let ghost g0 = self@;
        proof {
            assert(cleared_cells(g0.lines[row as int], from as int, from as int, style) =~= g0.lines[row as int]);
            assert(g0.lines.update(row as int, g0.lines[row as int]) =~= g0.lines);
        }
        let mut col = from;
        while col < to
            invariant
                self.wf(),
                g0.well_formed(),
                row < g0.rows,
                row < self@.rows,
                from <= col <= to <= self@.cols,
                self@.cols == g0.cols,
                self@ == g0.with_row(row as int, cleared_cells(g0.lines[row as int], from as int, col as int, style)),
            decreases to - col,
        {
            proof {
                self.lemma_view();
                assert(self@.lines[row as int].len() == self@.cols);
            }
            let ghost before = self@.lines;
            self.lines[row][col] = Cell::blank_with_style(style);
            col += 1;
            proof {
                self.lemma_view();
                assert(self@.lines =~= before.update(row as int, before[row as int].update(col - 1, blank_cell(style))));
                assert(before[row as int] == cleared_cells(g0.lines[row as int], from as int, col - 1, style));
                assert(self@.lines[row as int] =~= cleared_cells(g0.lines[row as int], from as int, col as int, style));
                assert(self@.lines =~= g0.with_row(row as int, cleared_cells(g0.lines[row as int], from as int, col as int, style)).lines);
            }
        }
    }

    pub fn clear_line_from_cursor(&mut self, cursor: Cursor, style: Style)
        requires
            old(self).wf(),
            cursor.row < old(self)@.rows,
        ensures
            final(self)@ == old(self)@.line_cleared_from(cursor, style),
            final(self).wf(),
    {
        if cursor.col < self.cols {
            self.clear_cells(cursor.row, cursor.col, self.cols, style);
        } else {
            proof {
                self.lemma_view();
                let line = self@.lines[cursor.row as int];
                assert(cleared_cells(line, cursor.col as int, self@.cols as int, style) =~= line);
                assert(self@.lines =~= self@.lines.update(cursor.row as int, line));
            }
        }
    }

    pub fn clear_line_to_cursor(&mut self, cursor: Cursor, style: Style)
        requires
            old(self).wf(),
            cursor.row < old(self)@.rows,
        ensures
            final(self)@ == old(self)@.line_cleared_to(cursor, style),
            final(self).wf(),
    {
        let last = if cursor.col < self.cols - 1 { cursor.col } else { self.cols - 1 };
        self.clear_cells(cursor.row, 0, last + 1, style);
    }

    pub fn clear_entire_line(&mut self, row: usize, style: Style)
        requires
            old(self).wf(),
        ensures
            final(self)@ == old(self)@.entire_line_cleared(row, style),
            final(self).wf(),
    {
        let row = if row < self.rows - 1 { row } else { self.rows - 1 };
        self.clear_cells(row, 0, self.cols, style);
        proof {
            assert(cleared_cells(old(self)@.lines[row as int], 0, old(self)@.cols as int, style) =~= blank_row(old(self)@.cols, style));
        }
    }

    pub fn insert_blank_chars(&mut self, cursor: Cursor, count: usize, style: Style)
        requires
            old(self).wf(),
        ensures
            final(self).wf(),
            final(self)@ == old(self)@.chars_inserted(cursor, count, style),
    {
        proof {
            self.lemma_view();
        }
        let ghost g0 = self@;
        let row = if cursor.row < self.rows - 1 { cursor.row } else { self.rows - 1 };
        let col = if cursor.col < self.cols - 1 { cursor.col } else { self.cols - 1 };
        let count = if count == 0 { 1 } else { count };
        let n = if count < self.cols - col { count } else { self.cols - col };
        let ghost line0 = g0.lines[row as int];
        let mut k: usize = 0;
        proof {
            assert(line0.take(col as int) + blank_row(0, style) + line0.subrange(col as int, g0.cols as int) =~= line0);
            assert(g0.lines.update(row as int, line0) =~= g0.lines);
        }
        while k < n
            invariant
                g0.well_formed(),
                row < g0.rows,
                col < g0.cols,
                k <= n <= g0.cols - col,
                line0 == g0.lines[row as int],
                self.wf(),
                self@ == g0.with_row(
                    row as int,
                    line0.take(col as int) + blank_row(k as nat, style) + line0.subrange(col as int, g0.cols - k),
                ),
            decreases n - k,
        {
            proof {
                self.lemma_view();
                assert(self@.lines[row as int].len() == self@.cols);
                assert(self.lines@[row as int]@.len() == g0.cols);
            }
            let ghost before = self@.lines;
            self.lines[row].insert(col, Cell::blank_with_style(style));
            self.lines[row].pop();
            k += 1;
            proof {
                self.lemma_view();
                let prev = line0.take(col as int) + blank_row((k - 1) as nat, style) + line0.subrange(col as int, g0.cols - (k - 1));
                assert(before == g0.lines.update(row as int, prev));
                assert(before[row as int] == prev);
                let next = line0.take(col as int) + blank_row(k as nat, style) + line0.subrange(col as int, g0.cols - k);
                assert(self@.lines[row as int] =~= prev.insert(col as int, blank_cell(style)).drop_last());
                assert(prev.insert(col as int, blank_cell(style)).drop_last() =~= next);
                assert(self@.lines.len() == before.len());
                assert(forall|i: int| 0 <= i < before.len() && i != row ==> self@.lines[i] == before[i]);
                assert(self@.lines.len() == g0.lines.len());
                assert forall|i: int| 0 <= i < before.len() && i != row implies self@.lines[i] == g0.lines[i] by {
                    assert(before[i] == g0.lines.update(row as int, prev)[i]);
                }
                assert(self@.lines[row as int] == next);
                assert(self@.lines =~= g0.lines.update(row as int, next));
            }
        }
    }

    pub fn delete_chars(&mut self, cursor: Cursor, count: usize, style: Style)
        requires
            old(self).wf(),
        ensures
            final(self).wf(),
            final(self)@ == old(self)@.chars_deleted(cursor, count, style),
    {
        proof {
            self.lemma_view();
        }
        let ghost g0 = self@;
        let row = if cursor.row < self.rows - 1 { cursor.row } else { self.rows - 1 };
        let col = if cursor.col < self.cols - 1 { cursor.col } else { self.cols - 1 };
        let count = if count == 0 { 1 } else { count };
        let n = if count < self.cols - col { count } else { self.cols - col };
        let ghost line0 = g0.lines[row as int];
        let mut k: usize = 0;
        proof {
            assert(line0.take(col as int) + line0.skip(col as int) + blank_row(0, style) =~= line0);
            assert(g0.lines.update(row as int, line0) =~= g0.lines);
        }
        while k < n
            invariant
                g0.well_formed(),
                row < g0.rows,
                col < g0.cols,
                k <= n <= g0.cols - col,
                line0 == g0.lines[row as int],
                self.wf(),
                self@ == g0.with_row(row as int, line0.take(col as int) + line0.skip(col + k) + blank_row(k as nat, style)),
            decreases n - k,
        {
            proof {
                self.lemma_view();
                assert(self@.lines[row as int].len() == self@.cols);
                assert(self.lines@[row as int]@.len() == g0.cols);
            }
            let ghost before = self@.lines;
            self.lines[row].remove(col);
            self.lines[row].push(Cell::blank_with_style(style));
            k += 1;
            proof {
                self.lemma_view();
                let prev = line0.take(col as int) + line0.skip(col + k - 1) + blank_row((k - 1) as nat, style);
                assert(before == g0.lines.update(row as int, prev));
                assert(before[row as int] == prev);
                let next = line0.take(col as int) + line0.skip(col + k) + blank_row(k as nat, style);
                assert(self@.lines[row as int] =~= prev.remove(col as int).push(blank_cell(style)));
                assert(prev.remove(col as int).push(blank_cell(style)) =~= next);
                assert(self@.lines.len() == before.len());
                assert(forall|i: int| 0 <= i < before.len() && i != row ==> self@.lines[i] == before[i]);
                assert(self@.lines.len() == g0.lines.len());
                assert forall|i: int| 0 <= i < before.len() && i != row implies self@.lines[i] == g0.lines[i] by {
                    assert(before[i] == g0.lines.update(row as int, prev)[i]);
                }
                assert(self@.lines[row as int] == next);
                assert(self@.lines =~= g0.lines.update(row as int, next));
            }
        }
    }

    pub fn erase_chars(&mut self, cursor: Cursor, count: usize, style: Style)
        requires
            old(self).wf(),
        ensures
            final(self).wf(),
            final(self)@ == old(self)@.chars_erased(cursor, count, style),
    {
        let row = if cursor.row < self.rows - 1 { cursor.row } else { self.rows - 1 };
        let col = if cursor.col < self.cols - 1 { cursor.col } else { self.cols - 1 };
        let count = if count == 0 { 1 } else { count };
        let end = if count < self.cols - col { col + count } else { self.cols };
        self.clear_cells(row, col, end, style);
    }

    /// Inserts `n` blank rows at `row` inside `[row, bottom]`.
    fn insert_rows(&mut self, row: usize, n: usize, bottom: usize, style: Style)
        requires
            old(self).wf(),
            row <= bottom < old(self)@.rows,
            n <= bottom + 1 - row,
        ensures
            final(self).wf(),
            final(self)@ == old(self)@.rows_inserted(row as int, n as int, bottom as int, style),
    {
        let ghost g0 = self@;
        proof {
            assert(g0.lines.take(row as int) + blank_rows(0, g0.cols, style) + g0.lines.subrange(row as int, bottom + 1)
                + g0.lines.skip(bottom + 1) =~= g0.lines);
        }
        let mut k: usize = 0;
        while k < n
            invariant
                g0.well_formed(),
                row <= bottom < g0.rows,
                k <= n <= bottom + 1 - row,
                self.wf(),
                self@ == g0.rows_inserted(row as int, k as int, bottom as int, style),
            decreases n - k,
        {
            proof {
                self.lemma_view();
            }
            let ghost before = self@.lines;
            let blank = blank_line_with_style(self.cols, style);
            self.lines.insert(row, blank);
            self.lines.remove(bottom + 1);
            k += 1;
            proof {
                self.lemma_view();
                assert(self@.lines =~= before.insert(row as int, blank_row(g0.cols, style)).remove(bottom + 1));
                assert(before.insert(row as int, blank_row(g0.cols, style)).remove(bottom + 1)
                    =~= g0.rows_inserted(row as int, k as int, bottom as int, style).lines);
            }
        }
    }

    /// Removes `n` rows at `row`, pulling up the rows up to `bottom`.
    fn delete_rows(&mut self, row: usize, n: usize, bottom: usize, style: Style)
        requires
            old(self).wf(),
            row <= bottom < old(self)@.rows,
            n <= bottom + 1 - row,
        ensures
            final(self).wf(),
            final(self)@ == old(self)@.rows_deleted(row as int, n as int, bottom as int, style),
    {
        let ghost g0 = self@;
        proof {
            assert(g0.lines.take(row as int) + g0.lines.subrange(row as int, bottom + 1) + blank_rows(0, g0.cols, style)
                + g0.lines.skip(bottom + 1) =~= g0.lines);
        }
        let mut k: usize = 0;
        while k < n
            invariant
                g0.well_formed(),
                row <= bottom < g0.rows,
                k <= n <= bottom + 1 - row,
                self.wf(),
                self@ == g0.rows_deleted(row as int, k as int, bottom as int, style),
            decreases n - k,
        {
            proof {
                self.lemma_view();
            }
            let ghost before = self@.lines;
            self.lines.remove(row);
            let blank = blank_line_with_style(self.cols, style);
            self.lines.insert(bottom, blank);
            k += 1;
            proof {
                self.lemma_view();
                assert(self@.lines =~= before.remove(row as int).insert(bottom as int, blank_row(g0.cols, style)));
                assert(before.remove(row as int).insert(bottom as int, blank_row(g0.cols, style))
                    =~= g0.rows_deleted(row as int, k as int, bottom as int, style).lines);
            }
        }
    }

    pub fn insert_blank_lines(&mut self, cursor: Cursor, count: usize, region: Option<(usize, usize)>, style: Style)
        requires
            old(self).wf(),
        ensures
            final(self).wf(),
            final(self)@ == old(self)@.blank_lines_inserted(cursor, count, region, style),
    {
        let Some((top, bottom)) = normalized_region(region, self.rows) else {
            return;
        };
        if cursor.row < top || cursor.row > bottom {
            return;
        }
        let count = if count == 0 { 1 } else { count };
        let n = if count < bottom - cursor.row + 1 { count } else { bottom - cursor.row + 1 };
        self.insert_rows(cursor.row, n, bottom, style);
    }

    pub fn delete_lines(&mut self, cursor: Cursor, count: usize, region: Option<(usize, usize)>, style: Style)
        requires
            old(self).wf(),
        ensures
            final(self).wf(),
            final(self)@ == old(self)@.lines_deleted(cursor, count, region, style),
    {
        let Some((top, bottom)) = normalized_region(region, self.rows) else {
            return;
        };
        if cursor.row < top || cursor.row > bottom {
            return;
        }
        let count = if count == 0 { 1 } else { count };
        let n = if count < bottom - cursor.row + 1 { count } else { bottom - cursor.row + 1 };
        self.delete_rows(cursor.row, n, bottom, style);
    }

    pub fn scroll_up_lines(&mut self, count: usize, region: Option<(usize, usize)>, style: Style)
        requires
            old(self).wf(),
        ensures
            final(self).wf(),
            final(self)@ == old(self)@.lines_scrolled_up(count, region, style),
    {
        let Some((top, bottom)) = normalized_region(region, self.rows) else {
            return;
        };
        let count = if count == 0 { 1 } else { count };
        let n = if count < bottom - top + 1 { count } else { bottom - top + 1 };
        self.delete_rows(top, n, bottom, style);
    }

    pub fn scroll_down_lines(&mut self, count: usize, region: Option<(usize, usize)>, style: Style)
        requires
            old(self).wf(),
        ensures
            final(self).wf(),
            final(self)@ == old(self)@.lines_scrolled_down(count, region, style),
    {
        let Some((top, bottom)) = normalized_region(region, self.rows) else {
            return;
        };
        let count = if count == 0 { 1 } else { count };
        let n = if count < bottom - top + 1 { count } else { bottom - top + 1 };
        self.insert_rows(top, n, bottom, style);
    }

    pub fn clear_screen_from_cursor(&mut self, cursor: Cursor, style: Style)
        requires
            old(self).wf(),
            cursor.row < old(self)@.rows,
        ensures
            final(self).wf(),
            final(self)@ == old(self)@.screen_cleared_from(cursor, style),
    {
        let ghost g0 = self@;
        self.clear_line_from_cursor(cursor, style);
        let mut row = cursor.row + 1;
        proof {
            assert(self@.lines =~= Seq::new(
                g0.rows,
                |i: int|
                    if i < cursor.row {
                        g0.lines[i]
                    } else if i == cursor.row {
                        cleared_cells(g0.lines[i], cursor.col as int, g0.cols as int, style)
                    } else if i < row {
                        blank_row(g0.cols, style)
                    } else {
                        g0.lines[i]
                    },
            ));
        }
        while row < self.rows
            invariant
                g0.well_formed(),
                cursor.row < row <= g0.rows,
                self.wf(),
                self@ == g0.with_lines(
                    Seq::new(
                        g0.rows,
                        |i: int|
                            if i < cursor.row {
                                g0.lines[i]
                            } else if i == cursor.row {
                                cleared_cells(g0.lines[i], cursor.col as int, g0.cols as int, style)
                            } else if i < row {
                                blank_row(g0.cols, style)
                            } else {
                                g0.lines[i]
                            },
                    ),
                ),
            decreases g0.rows - row,
        {
            self.clear_entire_line(row, style);
            row += 1;
            proof {
                assert(self@.lines =~= Seq::new(
                    g0.rows,
                    |i: int|
                        if i < cursor.row {
                            g0.lines[i]
                        } else if i == cursor.row {
                            cleared_cells(g0.lines[i], cursor.col as int, g0.cols as int, style)
                        } else if i < row {
                            blank_row(g0.cols, style)
                        } else {
                            g0.lines[i]
                        },
                ));
            }
        }
        proof {
            assert(self@.lines =~= Seq::new(
                g0.rows,
                |i: int|
                    if i < cursor.row {
                        g0.lines[i]
                    } else if i == cursor.row {
                        cleared_cells(g0.lines[i], cursor.col as int, g0.cols as int, style)
                    } else {
                        blank_row(g0.cols, style)
                    },
            ));
        }
    }

    pub fn clear_screen_to_cursor(&mut self, cursor: Cursor, style: Style)
        requires
            old(self).wf(),
            cursor.row < old(self)@.rows,
        ensures
            final(self).wf(),
            final(self)@ == old(self)@.screen_cleared_to(cursor, style),
    {
        let ghost g0 = self@;
        let mut row: usize = 0;
        proof {
            assert(g0.lines =~= Seq::new(g0.rows, |i: int| if i < 0 { blank_row(g0.cols, style) } else { g0.lines[i] }));
        }
        while row < cursor.row
            invariant
                g0.well_formed(),
                row <= cursor.row < g0.rows,
                self.wf(),
                self@ == g0.with_lines(
                    Seq::new(g0.rows, |i: int| if i < row { blank_row(g0.cols, style) } else { g0.lines[i] }),
                ),
            decreases cursor.row - row,
        {
            self.clear_entire_line(row, style);
            row += 1;
            proof {
                assert(self@.lines =~= Seq::new(
                    g0.rows,
                    |i: int| if i < row { blank_row(g0.cols, style) } else { g0.lines[i] },
                ));
            }
        }
        self.clear_line_to_cursor(cursor, style);
        proof {
            assert(self@.lines =~= Seq::new(
                g0.rows,
                |i: int|
                    if i < cursor.row {
                        blank_row(g0.cols, style)
                    } else if i == cursor.row {
                        cleared_cells(g0.lines[i], 0, min_int(cursor.col as int, g0.cols - 1) + 1, style)
                    } else {
                        g0.lines[i]
                    },
            ));
        }
    }

    pub fn clear_screen(&mut self, cursor: &mut Cursor, style: Style)
        requires
            old(self).wf(),
        ensures
            final(self).wf(),
            final(self)@ == old(self)@.screen_cleared(style),
            *final(cursor) == (Cursor { row: 0, col: 0 }),
    {
        let ghost g0 = self@;
        let mut row: usize = 0;
        proof {
            assert(g0.lines =~= Seq::new(g0.rows, |i: int| if i < 0 { blank_row(g0.cols, style) } else { g0.lines[i] }));
        }
        while row < self.rows
            invariant
                g0.well_formed(),
                row <= g0.rows,
                self.wf(),
                self@ == g0.with_lines(
                    Seq::new(g0.rows, |i: int| if i < row { blank_row(g0.cols, style) } else { g0.lines[i] }),
                ),
            decreases g0.rows - row,
        {
            self.clear_entire_line(row, style);
            row += 1;
            proof {
                assert(self@.lines =~= Seq::new(
                    g0.rows,
                    |i: int| if i < row { blank_row(g0.cols, style) } else { g0.lines[i] },
                ));
            }
        }
        proof {
            assert(self@.lines =~= blank_rows(g0.rows, g0.cols, style));
        }
        *cursor = Cursor::default();
    }

    pub fn resize(&mut self, rows: usize, cols: usize, cursor: &mut Cursor)
        requires
            old(self).wf(),
        ensures
            final(self).wf(),
            final(self)@ == old(self)@.resized(rows, cols),
            *final(cursor) == final(self)@.clamped(old(cursor).row, old(cursor).col),
    {
        let ghost g0 = self@;
        let rows = if rows == 0 { 1 } else { rows };
        let cols = if cols == 0 { 1 } else { cols };
        let mut i: usize = 0;
        while i < self.lines.len()
            invariant
                g0.well_formed(),
                self.rows == g0.rows,
                self@.scrollback == g0.scrollback,
                self.lines@.len() == g0.rows,
                i <= g0.rows,
                forall|k: int| 0 <= k < i ==> #[trigger] self.lines@[k]@ == resized_line(g0.lines[k], cols as nat),
                forall|k: int| i <= k < g0.rows ==> #[trigger] self.lines@[k]@ == g0.lines[k],
            decreases g0.rows - i,
        {
            let ghost before = self.lines@;
            resize_line(&mut self.lines[i], cols);
            proof {
                assert forall|k: int| 0 <= k < g0.rows && k != i implies #[trigger] self.lines@[k] == before[k] by {}
            }
            i += 1;
        }
        if rows > self.rows {
            let mut k: usize = self.rows;
            while k < rows
                invariant
                    g0.well_formed(),
                    self.rows == g0.rows,
                    self@.scrollback == g0.scrollback,
                    g0.rows <= k <= rows,
                    self.lines@.len() == k,
                    forall|j: int| 0 <= j < g0.rows ==> #[trigger] self.lines@[j]@ == resized_line(g0.lines[j], cols as nat),
                    forall|j: int| g0.rows <= j < k ==> #[trigger] self.lines@[j]@ == blank_row(cols as nat, plain_style()),
                decreases rows - k,
            {
                self.lines.push(blank_line(cols));
                k += 1;
            }
        } else if rows < self.rows {
            self.lines.truncate(rows);
        }
        self.rows = rows;
        self.cols = cols;
        cursor.row = if cursor.row < self.rows - 1 { cursor.row } else { self.rows - 1 };
        cursor.col = if cursor.col < self.cols - 1 { cursor.col } else { self.cols - 1 };
        proof {
            self.lemma_view();
            let target = Seq::new(
                rows as nat,
                |j: int| if j < g0.rows { resized_line(g0.lines[j], cols as nat) } else { blank_row(cols as nat, plain_style()) },
            );
            assert(self@.lines =~= target);
            assert forall|j: int| 0 <= j < self@.lines.len() implies #[trigger] self@.lines[j].len() == self@.cols by {
                if j < g0.rows {
                    assert(g0.lines[j].len() == g0.cols);
                }
            }
        }
    }

    /// The plain text of rows `[start, start + max_visible_lines)`, clamped to the screen.
    pub fn visible_lines_from(&self, start: usize, max_visible_lines: usize) -> (out: Vec<String>)
        requires
            self.wf(),
        ensures
            ({
                let (s, e) = visible_window(self@.rows, start, max_visible_lines);
                &&& out@.len() == e - s
                &&& forall|k: int| 0 <= k < e - s ==> #[trigger] out@[k]@ == rendered_text(self@.lines[s + k])
            }),
    {
        proof {
            self.lemma_view();
        }
        let count = if max_visible_lines == 0 { 1 } else { max_visible_lines };
        let first = if start < self.rows - 1 { start } else { self.rows - 1 };
        let end = if count < self.rows - first { first + count } else { self.rows };
        let mut out: Vec<String> = Vec::new();
        let mut i = first;
        while i < end
            invariant
                self.wf(),
                first <= i <= end <= self@.rows,
                self.lines@.len() == self@.rows,
                forall|j: int| 0 <= j < self@.rows ==> #[trigger] self@.lines[j] == self.lines@[j]@,
                out@.len() == i - first,
                forall|k: int| 0 <= k < i - first ==> #[trigger] out@[k]@ == rendered_text(self@.lines[first + k]),
            decreases end - i,
        {
            out.push(render_line(self.lines[i].as_slice()));
            i += 1;
        }
        out
    }

    /// The styled text of rows `[start, start + max_visible_lines)`, clamped to the screen.
    pub fn visible_styled_lines_from(&self, start: usize, max_visible_lines: usize) -> (out: Vec<StyledLine>)
        requires
            self.wf(),
        ensures
            ({
                let (s, e) = visible_window(self@.rows, start, max_visible_lines);
                &&& out@.len() == e - s
                &&& forall|k: int| 0 <= k < e - s ==> #[trigger] styled_line_view(out@[k]) == styled_text(self@.lines[s + k])
            }),
    {
        proof {
            self.lemma_view();
        }
        let count = if max_visible_lines == 0 { 1 } else { max_visible_lines };
        let first = if start < self.rows - 1 { start } else { self.rows - 1 };
        let end = if count < self.rows - first { first + count } else { self.rows };
        let mut out: Vec<StyledLine> = Vec::new();
        let mut i = first;
        while i < end
            invariant
                self.wf(),
                first <= i <= end <= self@.rows,
                self.lines@.len() == self@.rows,
                forall|j: int| 0 <= j < self@.rows ==> #[trigger] self@.lines[j] == self.lines@[j]@,
                out@.len() == i - first,
                forall|k: int| 0 <= k < i - first ==> #[trigger] styled_line_view(out@[k]) == styled_text(self@.lines[first + k]),
            decreases end - i,
        {
            out.push(render_styled_line(self.lines[i].as_slice()));
            i += 1;
        }
        out
    }

    /// The plain text of at most `max_lines` history rows ending
    /// `offset_from_bottom` rows above the newest one.
    pub fn scrollback_lines(&self, offset_from_bottom: usize, max_lines: usize) -> (out: Vec<String>)
        requires
            self.wf(),
        ensures
            ({
                let (s, e) = history_window(self@.scrollback.len(), offset_from_bottom, max_lines);
                &&& out@.len() == e - s
                &&& forall|k: int| 0 <= k < e - s ==> #[trigger] out@[k]@ == rendered_text(self@.scrollback[s + k])
            }),
    {
        proof {
            self.lemma_view();
        }
        let len = self.scrollback.len();
        let end = if offset_from_bottom < len { len - offset_from_bottom } else { 0 };
        let first = if max_lines < end { end - max_lines } else { 0 };
        let mut out: Vec<String> = Vec::new();
        let mut i = first;
        while i < end
            invariant
                first <= i <= end <= self@.scrollback.len(),
                self.scrollback@.len() == self@.scrollback.len(),
                forall|j: int| 0 <= j < self@.scrollback.len() ==> #[trigger] self@.scrollback[j] == self.scrollback@[j]@,
                out@.len() == i - first,
                forall|k: int| 0 <= k < i - first ==> #[trigger] out@[k]@ == rendered_text(self@.scrollback[first + k]),
            decreases end - i,
        {
            out.push(render_line(self.scrollback[i].as_slice()));
            i += 1;
        }
        out
    }

    /// The styled text of the same history rows as `scrollback_lines`.
    pub fn scrollback_styled_lines(&self, offset_from_bottom: usize, max_lines: usize) -> (out: Vec<StyledLine>)
        requires
            self.wf(),
        ensures
            ({
                let (s, e) = history_window(self@.scrollback.len(), offset_from_bottom, max_lines);
                &&& out@.len() == e - s
                &&& forall|k: int| 0 <= k < e - s ==> #[trigger] styled_line_view(out@[k]) == styled_text(self@.scrollback[s + k])
            }),
    {
        proof {
            self.lemma_view();
        }
        let len = self.scrollback.len();
        let end = if offset_from_bottom < len { len - offset_from_bottom } else { 0 };
        let first = if max_lines < end { end - max_lines } else { 0 };
        let mut out: Vec<StyledLine> = Vec::new();
        let mut i = first;
        while i < end
            invariant
                first <= i <= end <= self@.scrollback.len(),
                self.scrollback@.len() == self@.scrollback.len(),
                forall|j: int| 0 <= j < self@.scrollback.len() ==> #[trigger] self@.scrollback[j] == self.scrollback@[j]@,
                out@.len() == i - first,
                forall|k: int| 0 <= k < i - first ==> #[trigger] styled_line_view(out@[k]) == styled_text(self@.scrollback[first + k]),
            decreases end - i,
        {
            out.push(render_styled_line(self.scrollback[i].as_slice()));
            i += 1;
        }
        out
    }
}

} // verus!
