use vstd::prelude::*;

use crate::composition::CompositionState;
use crate::selection::{saturated, SelectionRange};
use crate::state::{lines_view, styled_lines_view, TerminalSnapshot};
use crate::style::{plain_style, styled_line_view, Color, Style, StyledLine};
use crate::text::{char_width, char_width_spec, display_width, str_chars, text_width};

verus! {

/// One of the six levels of the 6x6x6 color cube.
pub open spec fn cube_level(value: u8) -> u8 {
    if value == 0 {
        0
    } else {
        (55 + value * 40) as u8
    }
}

/// The intensity of cube level `value` (0 to 5): 0, 95, 135, 175, 215, 255.
pub fn cube_component(value: u8) -> (c: u8)
    requires
        value <= 5,
    ensures
        c == cube_level(value),
{
    if value == 0 {
        0
    } else {
        55 + (value * 40)
    }
}

/// Entry `index` (0 to 215) of the color cube: red, green and blue levels
/// are the base-6 digits of the index.
pub open spec fn cube_rgb(index: u8) -> (u8, u8, u8) {
    (cube_level(index / 36), cube_level((index % 36) / 6), cube_level(index % 6))
}

/// The RGB value of color-cube entry `index`.
pub fn color_cube(index: u8) -> (rgb: (u8, u8, u8))
    requires
        index < 216,
    ensures
        rgb == cube_rgb(index),
{
    let red = index / 36;
    let green = (index % 36) / 6;
    let blue = index % 6;
    (cube_component(red), cube_component(green), cube_component(blue))
}

/// The sixteen base colors of the palette.
pub open spec fn base_rgb(index: u8) -> (u8, u8, u8) {
    if index == 0 {
        (0x1d, 0x1f, 0x21)
    } else if index == 1 {
        (0xcc, 0x24, 0x1d)
    } else if index == 2 {
        (0x98, 0x97, 0x1a)
    } else if index == 3 {
        (0xd7, 0x99, 0x21)
    } else if index == 4 {
        (0x45, 0x85, 0x88)
    } else if index == 5 {
        (0xb1, 0x62, 0x86)
    } else if index == 6 {
        (0x68, 0x9d, 0x6a)
    } else if index == 7 {
        (0xeb, 0xdb, 0xb2)
    } else if index == 8 {
        (0x92, 0x83, 0x74)
    } else if index == 9 {
        (0xfb, 0x49, 0x34)
    } else if index == 10 {
        (0xb8, 0xbb, 0x26)
    } else if index == 11 {
        (0xfa, 0xbd, 0x2f)
    } else if index == 12 {
        (0x83, 0xa5, 0x98)
    } else if index == 13 {
        (0xd3, 0x86, 0x9b)
    } else if index == 14 {
        (0x8e, 0xc0, 0x7c)
    } else {
        (0xfb, 0xf1, 0xc7)
    }
}

/// The palette: sixteen base colors, the color cube, then a gray ramp from 8
/// in steps of 10.
pub open spec fn indexed_rgb(index: u8) -> (u8, u8, u8) {
    if index < 16 {
        base_rgb(index)
    } else if index < 232 {
        cube_rgb((index - 16) as u8)
    } else {
        let v = (8 + (index - 232) * 10) as u8;
        (v, v, v)
    }
}

/// The RGB value of palette entry `index`.
pub fn indexed_color(index: u8) -> (rgb: (u8, u8, u8))
    ensures
        rgb == indexed_rgb(index),
{
    match index {
        0 => (0x1d, 0x1f, 0x21),
        1 => (0xcc, 0x24, 0x1d),
        2 => (0x98, 0x97, 0x1a),
        3 => (0xd7, 0x99, 0x21),
        4 => (0x45, 0x85, 0x88),
        5 => (0xb1, 0x62, 0x86),
        6 => (0x68, 0x9d, 0x6a),
        7 => (0xeb, 0xdb, 0xb2),
        8 => (0x92, 0x83, 0x74),
        9 => (0xfb, 0x49, 0x34),
        10 => (0xb8, 0xbb, 0x26),
        11 => (0xfa, 0xbd, 0x2f),
        12 => (0x83, 0xa5, 0x98),
        13 => (0xd3, 0x86, 0x9b),
        14 => (0x8e, 0xc0, 0x7c),
        15 => (0xfb, 0xf1, 0xc7),
        _ => {
            if index < 232 {
                color_cube(index - 16)
            } else {
                let value = 8 + ((index - 232) * 10);
                (value, value, value)
            }
        },
    }
}

/// The color text is drawn in: the foreground, or with inverse video the
/// background (palette 0 when there is none). `None` means the default.
pub open spec fn foreground_of(style: Style) -> Option<Color> {
    if style.inverse {
        match style.background {
            Some(c) => Some(c),
            None => Some(Color::Indexed(0)),
        }
    } else {
        style.foreground
    }
}

/// The color behind text: the background, or with inverse video the
/// foreground (palette 7 when there is none). `None` means no fill.
pub open spec fn background_of(style: Style) -> Option<Color> {
    if style.inverse {
        match style.foreground {
            Some(c) => Some(c),
            None => Some(Color::Indexed(7)),
        }
    } else {
        style.background
    }
}

/// The color text of this style is drawn in.
pub fn terminal_foreground_color(style: Style) -> (c: Option<Color>)
    ensures
        c == foreground_of(style),
{
    if style.inverse {
        match style.background {
            Some(c) => Some(c),
            None => Some(Color::Indexed(0)),
        }
    } else {
        style.foreground
    }
}

/// The color filled behind text of this style, if any.
pub fn terminal_background_color(style: Style) -> (c: Option<Color>)
    ensures
        c == background_of(style),
{
    if style.inverse {
        match style.foreground {
            Some(c) => Some(c),
            None => Some(Color::Indexed(7)),
        }
    } else {
        style.background
    }
}

/// The RGB value a color is drawn with: white text and a black background by default.
pub open spec fn color_rgb_spec(color: Option<Color>, foreground: bool) -> (u8, u8, u8) {
    match color {
        None => if foreground {
            (255, 255, 255)
        } else {
            (0, 0, 0)
        },
        Some(Color::Indexed(index)) => indexed_rgb(index),
        Some(Color::Rgb(r, g, b)) => (r, g, b),
    }
}

/// The RGB value a color is drawn with.
pub fn color_rgb(color: Option<Color>, foreground: bool) -> (rgb: (u8, u8, u8))
    ensures
        rgb == color_rgb_spec(color, foreground),
{
    match color {
        None => if foreground {
            (255, 255, 255)
        } else {
            (0, 0, 0)
        },
        Some(Color::Indexed(index)) => indexed_color(index),
        Some(Color::Rgb(r, g, b)) => (r, g, b),
    }
}

/// A character drawn in the cell at `(row, col)`.
#[derive(Clone, Copy, Debug, PartialEq, Eq, Structural)]
pub struct Glyph {
    pub row: usize,
    pub col: usize,
    pub ch: char,
    pub style: Style,
}

/// A background filled over `width` cells from `(row, col)`.
#[derive(Clone, Copy, Debug, PartialEq, Eq, Structural)]
pub struct Fill {
    pub row: usize,
    pub col: usize,
    pub width: usize,
    pub color: Color,
}

/// `width` cells from `(row, col)`.
#[derive(Clone, Copy, Debug, PartialEq, Eq, Structural)]
pub struct CellSpan {
    pub row: usize,
    pub col: usize,
    pub width: usize,
}

/// What to draw for a snapshot: backgrounds first, then characters.
#[derive(Clone, Debug)]
pub struct DrawPlan {
    pub fills: Vec<Fill>,
    pub glyphs: Vec<Glyph>,
}

/// Where drawing stands after the characters `s`, starting at column `col`:
/// the column of the next cell, and the column of the last character that
/// took a cell (where a combining mark goes).
pub open spec fn advance_cells(s: Seq<char>, col: nat) -> (nat, nat)
    decreases s.len(),
{
    if s.len() == 0 {
        (col, col)
    } else {
        let (current, previous) = advance_cells(s.drop_last(), col);
        let w = char_width_spec(s.last());
        if w > 0 {
            (saturated(current + w), current)
        } else {
            (current, previous)
        }
    }
}

/// The characters of `s` placed cell by cell from `(row, col)`: a wide
/// character takes two cells, a combining mark is drawn over the character
/// before it.
pub open spec fn text_glyphs(s: Seq<char>, row: usize, col: usize, style: Style) -> Seq<Glyph>
    decreases s.len(),
{
    if s.len() == 0 {
        Seq::empty()
    } else {
        let cells = advance_cells(s.drop_last(), col as nat);
        let c = s.last();
        let at = if char_width_spec(c) == 0 { cells.1 } else { cells.0 };
        text_glyphs(s.drop_last(), row, col, style).push(Glyph { row, col: at as usize, ch: c, style })
    }
}

/// Each character of a text becomes one glyph, in order.
proof fn lemma_text_glyphs_push(t: Seq<char>, c: char, row: usize, col: usize, style: Style)
    ensures
        text_glyphs(t.push(c), row, col, style).len() == text_glyphs(t, row, col, style).len() + 1,
        text_glyphs(t.push(c), row, col, style).last().ch == c,
        text_glyphs(t.push(c), row, col, style).drop_last() == text_glyphs(t, row, col, style),
{
    assert(t.push(c).drop_last() == t);
}

pub proof fn text_glyphs_one_per_char(s: Seq<char>, row: usize, col: usize, style: Style)
    ensures
        text_glyphs(s, row, col, style).len() == s.len(),
        forall|i: int| 0 <= i < s.len() ==> (#[trigger] text_glyphs(s, row, col, style)[i]).ch == s[i],
    decreases s.len(),
{
    if s.len() > 0 {
        text_glyphs_one_per_char(s.drop_last(), row, col, style);
        lemma_text_glyphs_push(s.drop_last(), s.last(), row, col, style);
        assert(s.drop_last().push(s.last()) == s);
        assert forall|i: int| 0 <= i < s.len() implies (#[trigger] text_glyphs(s, row, col, style)[i]).ch == s[i] by {
            if i < s.len() - 1 {
                assert(text_glyphs(s.drop_last(), row, col, style)[i].ch == s.drop_last()[i]);
            }
        }
    }
}

fn cells_of_chars(chars: &Vec<char>, row: usize, col: usize, style: Style) -> (glyphs: Vec<Glyph>)
    ensures
        glyphs@ == text_glyphs(chars@, row, col, style),
{
    let mut glyphs: Vec<Glyph> = Vec::new();
    let mut current: usize = col;
    let mut previous: usize = col;
    let mut i: usize = 0;
    while i < chars.len()
        invariant
            i <= chars@.len(),
            (current as nat, previous as nat) == advance_cells(chars@.take(i as int), col as nat),
            glyphs@ == text_glyphs(chars@.take(i as int), row, col, style),
        decreases chars@.len() - i,
    {
        let ch = chars[i];
        let width = char_width(ch);
        proof {
            assert(chars@.take(i + 1).drop_last() == chars@.take(i as int));
            assert(chars@.take(i + 1).last() == ch);
        }
        let at = if width == 0 { previous } else { current };
        glyphs.push(Glyph { row, col: at, ch, style });
        if width > 0 {
            previous = current;
            current = current.saturating_add(width);
        }
        i += 1;
    }
    assert(chars@.take(i as int) == chars@);
    glyphs
}

/// Places the characters of `text` cell by cell from `(row, col)`.
pub fn draw_text_cells_at(text: &str, row: usize, col: usize, style: Style) -> (glyphs: Vec<Glyph>)
    ensures
        glyphs@ == text_glyphs(text@, row, col, style),
{
    let chars = str_chars(text);
    cells_of_chars(&chars, row, col, style)
}

/// Plain lines drawn one per row in the plain style.
pub open spec fn plain_glyphs(lines: Seq<Seq<char>>) -> Seq<Glyph>
    decreases lines.len(),
{
    if lines.len() == 0 {
        Seq::empty()
    } else {
        plain_glyphs(lines.drop_last()) + text_glyphs(lines.last(), (lines.len() - 1) as usize, 0, plain_style())
    }
}

/// Draws plain lines, one per row.
pub fn draw_plain_terminal_text(lines: &[String]) -> (glyphs: Vec<Glyph>)
    ensures
        glyphs@ == plain_glyphs(lines_view(lines@)),
{
    let ghost lv = lines_view(lines@);
    let mut glyphs: Vec<Glyph> = Vec::new();
    let mut index: usize = 0;
    while index < lines.len()
        invariant
            index <= lines@.len(),
            lv == lines_view(lines@),
            glyphs@ == plain_glyphs(lv.take(index as int)),
        decreases lines@.len() - index,
    {
        assert(lv.take(index + 1).drop_last() == lv.take(index as int));
        let mut row_glyphs = draw_text_cells_at(lines[index].as_str(), index, 0, Style::plain());
        glyphs.append(&mut row_glyphs);
        index += 1;
    }
    assert(lv.take(index as int) == lv);
    glyphs
}

/// A styled line laid out on `row`: each span drawn where the one before it
/// ended, its background filled when it has one and covers any cell. The
/// result also gives the column where the line ends.
pub open spec fn line_layout(spans: Seq<(Seq<char>, Style)>, row: usize) -> (Seq<Fill>, Seq<Glyph>, nat)
    decreases spans.len(),
{
    if spans.len() == 0 {
        (Seq::empty(), Seq::empty(), 0)
    } else {
        let (fills, glyphs, col) = line_layout(spans.drop_last(), row);
        let (text, style) = spans.last();
        let width = saturated(text_width(text));
        let new_fills = match background_of(style) {
            Some(color) => if width > 0 {
                fills.push(Fill { row, col: col as usize, width: width as usize, color })
            } else {
                fills
            },
            None => fills,
        };
        (new_fills, glyphs + text_glyphs(text, row, col as usize, style), saturated(col + width))
    }
}

proof fn lemma_line_layout_col(spans: Seq<(Seq<char>, Style)>, row: usize)
    ensures
        line_layout(spans, row).2 <= usize::MAX,
    decreases spans.len(),
{
    if spans.len() > 0 {
        lemma_line_layout_col(spans.drop_last(), row);
    }
}

/// Lays out a styled line on `row`.
pub fn draw_styled_line(line: &StyledLine, row: usize) -> (plan: DrawPlan)
    ensures
        plan.fills@ == line_layout(styled_line_view(*line), row).0,
        plan.glyphs@ == line_layout(styled_line_view(*line), row).1,
{
    let ghost spans = styled_line_view(*line);
    let mut fills: Vec<Fill> = Vec::new();
    let mut glyphs: Vec<Glyph> = Vec::new();
    let mut col: usize = 0;
    let mut k: usize = 0;
    while k < line.spans.len()
        invariant
            k <= line.spans@.len(),
            spans == styled_line_view(*line),
            fills@ == line_layout(spans.take(k as int), row).0,
            glyphs@ == line_layout(spans.take(k as int), row).1,
            col == line_layout(spans.take(k as int), row).2,
        decreases line.spans@.len() - k,
    {
        proof {
            assert(spans.take(k + 1).drop_last() == spans.take(k as int));
            lemma_line_layout_col(spans.take(k as int), row);
        }
        let span = &line.spans[k];
        assert(spans.take(k + 1).last() == (span.text@, span.style));
        let width = display_width(span.text.as_str());
        if width > 0 {
            match terminal_background_color(span.style) {
                Some(color) => fills.push(Fill { row, col, width, color }),
                None => {},
            }
        }
        let mut span_glyphs = draw_text_cells_at(span.text.as_str(), row, col, span.style);
        glyphs.append(&mut span_glyphs);
        col = col.saturating_add(width);
        k += 1;
    }
    assert(spans.take(k as int) == spans);
    DrawPlan { fills, glyphs }
}

/// Styled lines laid out one per row.
pub open spec fn styled_layout(lines: Seq<Seq<(Seq<char>, Style)>>) -> (Seq<Fill>, Seq<Glyph>)
    decreases lines.len(),
{
    if lines.len() == 0 {
        (Seq::empty(), Seq::empty())
    } else {
        let (fills, glyphs) = styled_layout(lines.drop_last());
        let (line_fills, line_glyphs, _) = line_layout(lines.last(), (lines.len() - 1) as usize);
        (fills + line_fills, glyphs + line_glyphs)
    }
}

/// What a snapshot draws: its styled lines, or its plain lines when it has
/// no styled ones.
pub open spec fn snapshot_layout(snapshot: TerminalSnapshot) -> (Seq<Fill>, Seq<Glyph>) {
    if snapshot.styled_lines@.len() == 0 {
        (Seq::empty(), plain_glyphs(lines_view(snapshot.lines@)))
    } else {
        styled_layout(styled_lines_view(snapshot.styled_lines@))
    }
}

/// Lays out the text of a snapshot.
pub fn draw_terminal_text(snapshot: &TerminalSnapshot) -> (plan: DrawPlan)
    ensures
        plan.fills@ == snapshot_layout(*snapshot).0,
        plan.glyphs@ == snapshot_layout(*snapshot).1,
{
    if snapshot.styled_lines.len() == 0 {
        let glyphs = draw_plain_terminal_text(snapshot.lines.as_slice());
        return DrawPlan { fills: Vec::new(), glyphs };
    }
    let ghost lines = styled_lines_view(snapshot.styled_lines@);
    let mut fills: Vec<Fill> = Vec::new();
    let mut glyphs: Vec<Glyph> = Vec::new();
    let mut index: usize = 0;
    while index < snapshot.styled_lines.len()
        invariant
            index <= snapshot.styled_lines@.len(),
            lines == styled_lines_view(snapshot.styled_lines@),
            fills@ == styled_layout(lines.take(index as int)).0,
            glyphs@ == styled_layout(lines.take(index as int)).1,
        decreases snapshot.styled_lines@.len() - index,
    {
        assert(lines.take(index + 1).drop_last() == lines.take(index as int));
        let mut line_plan = draw_styled_line(&snapshot.styled_lines[index], index);
        fills.append(&mut line_plan.fills);
        glyphs.append(&mut line_plan.glyphs);
        index += 1;
    }
    assert(lines.take(index as int) == lines);
    DrawPlan { fills, glyphs }
}

/// The style of text being composed: underlined, in palette color 11.
pub open spec fn composition_style() -> Style {
    Style { underline: true, foreground: Some(Color::Indexed(11)), ..plain_style() }
}

/// Places the text being composed at the cursor; nothing when there is none.
pub fn draw_composition_text(snapshot: &TerminalSnapshot, composition: &CompositionState) -> (glyphs: Vec<Glyph>)
    ensures
        composition.marked().len() == 0 ==> glyphs@.len() == 0,
        composition.marked().len() > 0 ==> glyphs@ == text_glyphs(
            composition.marked(),
            snapshot.cursor.row,
            snapshot.cursor.col,
            composition_style(),
        ),
{
    if !composition.has_marked_text() {
        return Vec::new();
    }
    let mut style = Style::plain();
    style.underline = true;
    style.foreground = Some(Color::Indexed(11));
    draw_text_cells_at(composition.marked_text(), snapshot.cursor.row, snapshot.cursor.col, style)
}

/// The cells of row `row` that a selection covers, clamped to the line's width.
pub open spec fn highlight_columns(lines: Seq<Seq<char>>, range: SelectionRange, row: int) -> (nat, nat) {
    let width = saturated(text_width(lines[row]));
    let start: nat = if row == range.start.row {
        if range.start.col <= width { range.start.col as nat } else { width }
    } else {
        0
    };
    let end: nat = if row == range.end.row {
        if range.end.col <= width { range.end.col as nat } else { width }
    } else {
        width
    };
    (start, end)
}

/// The highlighted cells of the first `n` rows of a selection, rows past the
/// end of `lines` and rows with nothing covered skipped.
pub open spec fn highlight_rows(lines: Seq<Seq<char>>, range: SelectionRange, n: nat) -> Seq<CellSpan>
    decreases n,
{
    if n == 0 {
        Seq::empty()
    } else {
        let prev = highlight_rows(lines, range, (n - 1) as nat);
        let row = range.start.row + n - 1;
        if row < lines.len() {
            let (start, end) = highlight_columns(lines, range, row);
            if end > start {
                prev.push(CellSpan { row: row as usize, col: start as usize, width: (end - start) as usize })
            } else {
                prev
            }
        } else {
            prev
        }
    }
}

/// The cells a selection highlights.
pub open spec fn highlights_spec(lines: Seq<Seq<char>>, range: Option<SelectionRange>) -> Seq<CellSpan> {
    match range {
        None => Seq::empty(),
        Some(r) => if r.start.row <= r.end.row {
            highlight_rows(lines, r, (r.end.row - r.start.row + 1) as nat)
        } else {
            Seq::empty()
        },
    }
}

proof fn lemma_highlight_rows_past_end(lines: Seq<Seq<char>>, range: SelectionRange, n: nat, m: nat)
    requires
        n <= m,
        range.start.row + n >= lines.len(),
    ensures
        highlight_rows(lines, range, m) == highlight_rows(lines, range, n),
    decreases m - n,
{
    if m > n {
        lemma_highlight_rows_past_end(lines, range, n, (m - 1) as nat);
    }
}

/// Every highlighted span lies on an existing line, is not empty and ends
/// within the line's width.
pub proof fn highlights_stay_on_text(lines: Seq<Seq<char>>, range: SelectionRange, n: nat)
    requires
        range.start.row + n <= usize::MAX + 1,
    ensures
        forall|k: int|
            0 <= k < highlight_rows(lines, range, n).len() ==> {
                let span = #[trigger] highlight_rows(lines, range, n)[k];
                &&& span.row < lines.len()
                &&& span.width > 0
                &&& span.col + span.width <= saturated(text_width(lines[span.row as int]))
            },
    decreases n,
{
    if n > 0 {
        highlights_stay_on_text(lines, range, (n - 1) as nat);
        let prev = highlight_rows(lines, range, (n - 1) as nat);
        let row = range.start.row + n - 1;
        if row < lines.len() {
            let (start, end) = highlight_columns(lines, range, row);
            if end > start {
                let span = CellSpan { row: row as usize, col: start as usize, width: (end - start) as usize };
                assert(highlight_rows(lines, range, n) == prev.push(span));
                assert(span.row == row);
            }
        }
    }
}

/// The cells to highlight for a selection over `lines`.
pub fn draw_selection_highlights(lines: &[String], range: Option<SelectionRange>) -> (spans: Vec<CellSpan>)
    ensures
        spans@ == highlights_spec(lines_view(lines@), range),
{
    let mut spans: Vec<CellSpan> = Vec::new();
    let range = match range {
        None => return spans,
        Some(r) => r,
    };
    if range.start.row > range.end.row {
        return spans;
    }
    let ghost lv = lines_view(lines@);
    let mut row: usize = range.start.row;
    let ghost mut n: nat = 0;
    while row <= range.end.row && row < lines.len()
        invariant
            range.start.row <= row,
            row <= range.end.row + 1,
            row == range.start.row + n,
            lv == lines_view(lines@),
            spans@ == highlight_rows(lv, range, n),
        decreases range.end.row + 1 - row,
    {
        let width = display_width(lines[row].as_str());
        let start_col = if row == range.start.row {
            if range.start.col < width { range.start.col } else { width }
        } else {
            0
        };
        let end_col = if row == range.end.row {
            if range.end.col < width { range.end.col } else { width }
        } else {
            width
        };
        if end_col > start_col {
            spans.push(CellSpan { row, col: start_col, width: end_col - start_col });
        }
        proof {
            n = n + 1;
        }
        row = row + 1;
    }
    proof {
        if row <= range.end.row {
            lemma_highlight_rows_past_end(lv, range, n, (range.end.row - range.start.row + 1) as nat);
        }
    }
    spans
}

} // verus!
