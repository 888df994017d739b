use vstd::prelude::*;

use crate::cursor::Cursor;
use crate::grid::glyph;
use crate::input::{control_text_bytes, key_event_bytes, KeyModifiers};
use crate::mouse::sgr_mouse_report_spec;
use crate::charset::{charset_char, Charset};
use crate::parser::{
    apply_sgr_spec, csi_action_spec, execute_spec, initial_charsets, is_control_spec, print_spec, ActionOf, ActionView,
};
use crate::render::{background_of, cube_level, foreground_of, indexed_rgb};
use crate::selection::{
    point_le, range_between, saturated, shifted_point, slice_columns, GridPoint, SelectionState,
};
use crate::state::{
    apply_all, apply_spec, cursor_position_reply, enter_alternate_effect, exit_alternate_effect, print_effect,
    resize_effect, status_ok_reply, TerminalStateView,
};
use crate::style::{plain_style, Color, Style};
use crate::terminal_view::scrolled_offset;
use crate::text::{char_width_spec, text_width};

verus! {

/// Switching to the alternate screen and back restores the main screen and
/// its cursor exactly; only a pending wrap is dropped.
pub proof fn alternate_screen_round_trip(s: TerminalStateView)
    requires
        s.main_screen is None,
    ensures
        apply_spec(apply_spec(s, ActionOf::EnterAlternateScreen), ActionOf::ExitAlternateScreen)
            == (TerminalStateView { wrap_pending: false, ..s }),
{
    reveal(apply_spec);
    reveal(enter_alternate_effect);
    reveal(exit_alternate_effect);
}

/// Asking for the alternate screen while it already shows changes nothing:
/// the main screen kept aside is the one from the first switch.
pub proof fn alternate_screen_enter_is_idempotent(s: TerminalStateView)
    ensures
        apply_spec(apply_spec(s, ActionOf::EnterAlternateScreen), ActionOf::EnterAlternateScreen)
            == apply_spec(s, ActionOf::EnterAlternateScreen),
{
    reveal(apply_spec);
    reveal(enter_alternate_effect);
}

/// Leaving the alternate screen while the main screen shows changes nothing.
pub proof fn alternate_screen_exit_on_main_screen_is_noop(s: TerminalStateView)
    requires
        s.main_screen is None,
    ensures
        apply_spec(s, ActionOf::ExitAlternateScreen) == s,
{
    reveal(apply_spec);
    reveal(exit_alternate_effect);
}

/// Saving the cursor and restoring it at once puts it back where it was.
pub proof fn save_restore_cursor_round_trip(s: TerminalStateView)
    requires
        s.well_formed(),
    ensures
        apply_spec(apply_spec(s, ActionOf::SaveCursor), ActionOf::RestoreCursor)
            == (TerminalStateView { saved_cursor: Some(s.cursor), wrap_pending: false, ..s }),
{
    reveal(apply_spec);
    let t = TerminalStateView { saved_cursor: Some(s.cursor), ..s };
    assert(t.grid.clamped(s.cursor.row, s.cursor.col) == s.cursor);
}

/// Feeding actions in two pieces has the same effect as feeding them at once.
pub proof fn apply_all_in_pieces(s: TerminalStateView, a: Seq<ActionView>, b: Seq<ActionView>)
    ensures
        apply_all(s, a + b) == apply_all(apply_all(s, a), b),
    decreases b.len(),
{
    if b.len() == 0 {
        assert(a + b == a);
    } else {
        apply_all_in_pieces(s, a, b.drop_last());
        assert((a + b).drop_last() == a + b.drop_last());
        assert((a + b).last() == b.last());
    }
}

/// SGR with no numbers, or with 0, resets the rendition to plain.
pub proof fn sgr_reset_gives_plain_style(style: crate::style::Style)
    ensures
        apply_sgr_spec(style, Seq::empty()) == plain_style(),
        apply_sgr_spec(style, seq![0usize]) == plain_style(),
{
    let zero = seq![0usize];
    assert(zero[0] == 0);
    assert(crate::parser::sgr_one(style, zero, 0) == (plain_style(), 0int));
    assert(crate::parser::sgr_from(plain_style(), zero, 1) == plain_style());
}

/// With the character sets a terminal starts with, every printable
/// character is printed as itself and the character sets stay as they are.
pub proof fn default_charsets_print_text_unchanged(ch: char)
    requires
        !is_control_spec(ch),
    ensures
        print_spec(initial_charsets(), ch) == (initial_charsets(), ActionOf::<Seq<char>, Seq<usize>>::Print(ch)),
{
}

/// Resizing to the size a terminal already has changes nothing more.
pub proof fn resize_is_idempotent(s: TerminalStateView, rows: usize, cols: usize)
    requires
        s.well_formed(),
    ensures
        resize_effect(resize_effect(s, rows, cols), rows, cols) == resize_effect(s, rows, cols),
{
    let g = s.grid.resized(rows, cols);
    assert(g.resized(rows, cols).lines =~= g.lines) by {
        assert forall|i: int| 0 <= i < g.lines.len() implies #[trigger] g.resized(rows, cols).lines[i] == g.lines[i] by {
            assert(g.lines[i].len() == g.cols);
            assert(g.lines[i] + crate::grid::blank_row(0, plain_style()) =~= g.lines[i]);
        }
    }
    match s.main_screen {
        Some((m, c)) => {
            let mg = m.resized(rows, cols);
            assert(mg.resized(rows, cols).lines =~= mg.lines) by {
                assert forall|i: int| 0 <= i < mg.lines.len() implies #[trigger] mg.resized(rows, cols).lines[i] == mg.lines[i] by {
                    assert(mg.lines[i].len() == mg.cols);
                    assert(mg.lines[i] + crate::grid::blank_row(0, plain_style()) =~= mg.lines[i]);
                }
            }
        },
        None => {},
    }
}

/// What is printed shows where the cursor was: a one-column character
/// lands in the cell under the cursor in the current rendition, and the cursor
/// moves one column right, or stays on the last column with a wrap pending.
pub proof fn printed_character_lands_under_cursor(s: TerminalStateView, ch: char)
    requires
        s.well_formed(),
        !s.wrap_pending,
        char_width_spec(ch) == 1,
    ensures
        ({
            let t = apply_spec(s, ActionOf::Print(ch));
            &&& t.grid.lines[s.cursor.row as int][s.cursor.col as int] == glyph(ch, s.style)
            &&& t.cursor.row == s.cursor.row
            &&& (s.cursor.col + 1 < s.grid.cols ==> t.cursor.col == s.cursor.col + 1 && !t.wrap_pending)
            &&& (s.cursor.col + 1 >= s.grid.cols ==> t.cursor.col == s.cursor.col && t.wrap_pending)
        }),
{
    reveal(apply_spec);
    reveal(print_effect);
    assert(s.grid.lines[s.cursor.row as int].len() == s.grid.cols);
}

/// A status report request is answered "OK", and a cursor position request
/// with the cursor's one-based row and column, after the replies already waiting.
pub proof fn reports_are_answered(s: TerminalStateView)
    ensures
        apply_spec(s, ActionOf::DeviceStatusReport).responses == s.responses + status_ok_reply(),
        apply_spec(s, ActionOf::CursorPositionReport).responses == s.responses + cursor_position_reply(s.cursor),
        apply_spec(s, ActionOf::DeviceStatusReport).grid == s.grid,
        apply_spec(s, ActionOf::CursorPositionReport).cursor == s.cursor,
{
    reveal(apply_spec);
}

/// Scrolling back or forward never leaves the history: an offset within it
/// stays within it.
pub proof fn scrolled_offset_stays_in_history(current: usize, delta: isize, history: nat)
    requires
        current <= history,
    ensures
        scrolled_offset(current, delta, history) <= history,
{
}

/// Scrolling back `n` rows and then forward `n` rows returns to the same
/// offset, when the history was long enough for the first step.
pub proof fn scroll_back_then_forward_returns(current: usize, n: isize, history: nat)
    requires
        n > 0,
        current + n <= history,
        current + n <= usize::MAX,
    ensures
        scrolled_offset(scrolled_offset(current, n, history), (-n) as isize, history) == current,
{
}

/// A selection does not depend on which end the drag started from.
pub proof fn selection_range_is_symmetric(a: GridPoint, b: GridPoint)
    ensures
        range_between(a, b) == range_between(b, a),
        point_le(range_between(a, b).start, range_between(a, b).end),
{
}

/// A drag that has not left its first cell selects nothing.
pub proof fn selection_without_extent_is_empty(state: SelectionState, p: GridPoint)
    requires
        state.anchor_point() == Some(p),
        state.active_point() == Some(p),
    ensures
        state.range_spec() is None,
{
}

/// Scrolling a point by `delta` rows and back restores it when neither step
/// is clamped.
pub proof fn shift_point_round_trip(p: GridPoint, delta: isize, max_row: usize)
    requires
        delta > isize::MIN,
        0 <= p.row + delta <= max_row,
        p.row <= max_row,
    ensures
        shifted_point(shifted_point(p, delta, max_row), (-delta) as isize, max_row) == p,
{
}

/// The width of joined texts is the sum of their widths.
pub proof fn text_width_adds_up(a: Seq<char>, b: Seq<char>)
    ensures
        text_width(a + b) == text_width(a) + text_width(b),
    decreases b.len(),
{
    if b.len() == 0 {
        assert(a + b == a);
    } else {
        text_width_adds_up(a, b.drop_last());
        assert((a + b).drop_last() == a + b.drop_last());
        assert((a + b).last() == b.last());
    }
}

/// The display width of joined texts, as `display_width` reports it (which
/// saturates at the largest `usize`), is the saturated sum of their widths,
/// and exactly their sum when that fits in a `usize`; the empty text has
/// width 0.
pub proof fn display_width_adds_up(a: Seq<char>, b: Seq<char>)
    ensures
        saturated(text_width(a + b)) == saturated(saturated(text_width(a)) + saturated(text_width(b))),
        text_width(a) + text_width(b) <= usize::MAX ==> saturated(text_width(a + b)) == saturated(text_width(a))
            + saturated(text_width(b)),
        text_width(Seq::<char>::empty()) == 0,
{
    text_width_adds_up(a, b);
}

proof fn lemma_narrow_width(s: Seq<char>)
    requires
        forall|i: int| 0 <= i < s.len() ==> char_width_spec(#[trigger] s[i]) == 1,
    ensures
        text_width(s) == s.len(),
    decreases s.len(),
{
    if s.len() > 0 {
        lemma_narrow_width(s.drop_last());
    }
}

/// In text where every character takes one column, the columns `[start,
/// end)` are exactly the characters at those positions.
pub proof fn narrow_text_slices_by_position(s: Seq<char>, start: nat, end: nat)
    requires
        forall|i: int| 0 <= i < s.len() ==> char_width_spec(#[trigger] s[i]) == 1,
        start <= end,
        s.len() <= usize::MAX,
    ensures
        slice_columns(s, start, end) == s.subrange(
            if start < s.len() { start as int } else { s.len() as int },
            if end < s.len() { end as int } else { s.len() as int },
        ),
    decreases s.len(),
{
    if s.len() > 0 {
        let t = s.drop_last();
        assert forall|i: int| 0 <= i < t.len() implies char_width_spec(#[trigger] t[i]) == 1 by {
            assert(t[i] == s[i]);
        }
        narrow_text_slices_by_position(t, start, end);
        lemma_narrow_width(t);
        let n = t.len() as int;
        let lo = if start < n { start as int } else { n };
        let hi = if end < n { end as int } else { n };
        let lo2 = if start < s.len() { start as int } else { s.len() as int };
        let hi2 = if end < s.len() { end as int } else { s.len() as int };
        assert(char_width_spec(s.last()) == 1);
        if start <= n && n < end {
            assert(s.subrange(lo2, hi2) =~= t.subrange(lo, hi).push(s.last()));
        } else {
            assert(s.subrange(lo2, hi2) =~= t.subrange(lo, hi));
        }
    } else {
        assert(s.subrange(0, 0) =~= Seq::<char>::empty());
    }
}

/// Inverse video swaps the colors of a style that has both.
pub proof fn inverse_video_swaps_colors(style: Style)
    requires
        style.foreground is Some,
        style.background is Some,
    ensures
        foreground_of(Style { inverse: !style.inverse, ..style }) == background_of(style),
        background_of(Style { inverse: !style.inverse, ..style }) == foreground_of(style),
{
}

/// The gray ramp at the end of the palette gets lighter step by step.
pub proof fn gray_ramp_is_increasing(i: u8, j: u8)
    requires
        232 <= i < j,
    ensures
        indexed_rgb(i).0 < indexed_rgb(j).0,
        indexed_rgb(i).0 == indexed_rgb(i).1 == indexed_rgb(i).2,
{
}

/// Palette entry `16 + 36 r + 6 g + b` is the cube color with levels `r`, `g`, `b`.
pub proof fn color_cube_layout(r: u8, g: u8, b: u8)
    requires
        r < 6,
        g < 6,
        b < 6,
    ensures
        indexed_rgb((16 + 36 * r + 6 * g + b) as u8) == (cube_level(r), cube_level(g), cube_level(b)),
{
    let index = 36 * r + 6 * g + b;
    assert(index / 36 == r && (index % 36) / 6 == g && index % 6 == b) by (nonlinear_arith)
        requires
            r < 6,
            g < 6,
            b < 6,
            index == 36 * r + 6 * g + b,
    ;
    assert(((16 + index) as u8 - 16) as u8 == index);
}

/// Control text from the input method is sent as that control byte, whatever
/// key produced it and whatever modifiers were held.
pub proof fn control_text_wins(key_code: u16, flags: KeyModifiers, input: &str)
    requires
        input@ == seq!['\u{3}'] || input@ == seq!['\u{4}'],
    ensures
        key_event_bytes(key_code, flags, input) == control_text_bytes(input@),
        key_event_bytes(key_code, flags, input) is Some,
{
}

/// A press and a release at the same cell differ only in the final byte.
pub proof fn mouse_press_and_release_differ_in_final_byte(code: u16, row: usize, col: usize)
    ensures
        sgr_mouse_report_spec(code, row, col, false).drop_last() == sgr_mouse_report_spec(code, row, col, true).drop_last(),
        sgr_mouse_report_spec(code, row, col, false).last() == 0x4du8,
        sgr_mouse_report_spec(code, row, col, true).last() == 0x6du8,
{
    let lead = seq![0x1bu8, 0x5b, 0x3c] + crate::text::decimal(code as nat) + seq![0x3bu8] + crate::text::decimal((col + 1) as nat)
        + seq![0x3bu8] + crate::text::decimal((row + 1) as nat);
    assert(sgr_mouse_report_spec(code, row, col, false) == lead.push(0x4du8));
    assert(sgr_mouse_report_spec(code, row, col, true) == lead.push(0x6du8));
    assert(lead.push(0x4du8).drop_last() == lead);
    assert(lead.push(0x6du8).drop_last() == lead);
}

/// CSI `n A`, `B`, `C`, `D` move the cursor `n` cells (one when `n` is 0 or
/// missing) up, down, right and left, stopping at the screen's edges; the
/// other coordinate stays.
pub proof fn csi_cursor_keys_move_by_their_count(s: TerminalStateView, n: usize)
    requires
        s.well_formed(),
    ensures
        ({
            let k: int = if n == 0 { 1 } else { n as int };
            let r = s.cursor.row as int;
            let c = s.cursor.col as int;
            let last_row = s.grid.rows - 1;
            let last_col = s.grid.cols - 1;
            &&& apply_spec(s, csi_action_spec(seq![n], Seq::empty(), 'B')).cursor.row == (if r + k < last_row { r + k } else { last_row })
            &&& apply_spec(s, csi_action_spec(seq![n], Seq::empty(), 'B')).cursor.col == c
            &&& apply_spec(s, csi_action_spec(seq![n], Seq::empty(), 'A')).cursor.row == (if r >= k { r - k } else { 0 })
            &&& apply_spec(s, csi_action_spec(seq![n], Seq::empty(), 'A')).cursor.col == c
            &&& apply_spec(s, csi_action_spec(seq![n], Seq::empty(), 'C')).cursor.col == (if c + k < last_col { c + k } else { last_col })
            &&& apply_spec(s, csi_action_spec(seq![n], Seq::empty(), 'C')).cursor.row == r
            &&& apply_spec(s, csi_action_spec(seq![n], Seq::empty(), 'D')).cursor.col == (if c >= k { c - k } else { 0 })
            &&& apply_spec(s, csi_action_spec(seq![n], Seq::empty(), 'D')).cursor.row == r
            &&& apply_spec(s, csi_action_spec(Seq::empty(), Seq::empty(), 'B')).cursor.row == (if r + 1 < last_row { r + 1 } else { last_row })
        }),
{
    reveal(apply_spec);
    assert(seq![n][0] == n);
    assert(Seq::<u8>::empty() != seq![0x3fu8]);
    assert(Seq::<u8>::empty() != seq![0x3eu8]);
    assert(Seq::<u8>::empty() != seq![0x20u8]);
}

/// A tab byte moves the cursor right to the next multiple of eight, or to the
/// last column when that comes first; the row stays and nothing is written.
pub proof fn tab_moves_to_next_tab_stop(s: TerminalStateView, cs: crate::parser::CharsetState)
    requires
        s.well_formed(),
    ensures
        execute_spec(cs, 0x09u8).1 == Some(ActionOf::<Seq<char>, Seq<usize>>::Tab),
        ({
            let c = s.cursor.col as int;
            let t = apply_spec(s, ActionOf::Tab);
            let next = (c / 8 + 1) * 8;
            &&& t.cursor.col == (if next < s.grid.cols - 1 { next } else { s.grid.cols - 1 })
            &&& t.cursor.row == s.cursor.row
            &&& t.grid == s.grid
            &&& (c < s.grid.cols - 1 ==> t.cursor.col > c)
            &&& (t.cursor.col % 8 == 0 || t.cursor.col == s.grid.cols - 1)
        }),
{
    reveal(apply_spec);
    let c = s.cursor.col as int;
    assert((c / 8 + 1) * 8 > c && ((c / 8 + 1) * 8) % 8 == 0) by (nonlinear_arith);
}

/// SGR 30–37 and 90–97 select the foreground palette entries 0–7 and 8–15,
/// SGR 40–47 and 100–107 the background entries 0–7 and 8–15; everything
/// else in the style stays.
pub proof fn sgr_palette_colors(style: Style, n: usize)
    ensures
        30 <= n <= 37 ==> apply_sgr_spec(style, seq![n]) == (Style { foreground: Some(Color::Indexed((n - 30) as u8)), ..style }),
        90 <= n <= 97 ==> apply_sgr_spec(style, seq![n]) == (Style { foreground: Some(Color::Indexed((n - 82) as u8)), ..style }),
        40 <= n <= 47 ==> apply_sgr_spec(style, seq![n]) == (Style { background: Some(Color::Indexed((n - 40) as u8)), ..style }),
        100 <= n <= 107 ==> apply_sgr_spec(style, seq![n]) == (Style { background: Some(Color::Indexed((n - 92) as u8)), ..style }),
{
    let one = seq![n];
    assert(one[0] == n);
    let (next, consumed) = crate::parser::sgr_one(style, one, 0);
    if consumed >= 0 {
        assert(crate::parser::sgr_from(next, one, consumed + 1) == next);
    }
}

/// The glyphs of the DEC special graphics set for the characters 0x60 to
/// 0x7e, in order: diamond, checkerboard, four letters kept as they are, the
/// degree and plus-minus signs, the NL and VT symbols, the line-drawing
/// corners, cross and scan lines, the tees, the vertical bar, less-or-equal,
/// greater-or-equal, pi, not-equal, pound sign and middle dot.
pub open spec fn dec_special_graphics_table() -> Seq<char> {
    seq![
        '◆', '▒', 'b', 'c', 'd', 'e', '°', '±', '␤', '␋', '┘', '┐', '┌', '└', '┼', '⎺', '⎻', '─', '⎼', '⎽', '├',
        '┤', '┴', '┬', '│', '≤', '≥', 'π', '≠', '£', '·',
    ]
}

/// DEC special graphics turns each character from 0x60 to 0x7e into its
/// line-drawing glyph and leaves every other character as it is; printed
/// with that set in G0, a character comes out as its glyph.
pub proof fn dec_special_graphics_maps_line_drawing(ch: char)
    ensures
        charset_char(ch, Charset::DecSpecialGraphics) == (if 0x60 <= ch as u32 <= 0x7e {
            dec_special_graphics_table()[ch as u32 - 0x60]
        } else {
            ch
        }),
        !is_control_spec(ch) ==> print_spec(
            crate::parser::CharsetState { g0: Charset::DecSpecialGraphics, ..initial_charsets() },
            ch,
        ).1 == ActionOf::<Seq<char>, Seq<usize>>::Print(charset_char(ch, Charset::DecSpecialGraphics)),
{
    let t = dec_special_graphics_table();
    let u = ch as u32;
    if 0x60 <= u <= 0x7e {
        if u == 0x60 { assert(ch == '`'); } else if u == 0x61 { assert(ch == 'a'); }
        else if u == 0x62 { assert(ch == 'b'); } else if u == 0x63 { assert(ch == 'c'); }
        else if u == 0x64 { assert(ch == 'd'); } else if u == 0x65 { assert(ch == 'e'); }
        else if u == 0x66 { assert(ch == 'f'); } else if u == 0x67 { assert(ch == 'g'); }
        else if u == 0x68 { assert(ch == 'h'); } else if u == 0x69 { assert(ch == 'i'); }
        else if u == 0x6a { assert(ch == 'j'); } else if u == 0x6b { assert(ch == 'k'); }
        else if u == 0x6c { assert(ch == 'l'); } else if u == 0x6d { assert(ch == 'm'); }
        else if u == 0x6e { assert(ch == 'n'); } else if u == 0x6f { assert(ch == 'o'); }
        else if u == 0x70 { assert(ch == 'p'); } else if u == 0x71 { assert(ch == 'q'); }
        else if u == 0x72 { assert(ch == 'r'); } else if u == 0x73 { assert(ch == 's'); }
        else if u == 0x74 { assert(ch == 't'); } else if u == 0x75 { assert(ch == 'u'); }
        else if u == 0x76 { assert(ch == 'v'); } else if u == 0x77 { assert(ch == 'w'); }
        else if u == 0x78 { assert(ch == 'x'); } else if u == 0x79 { assert(ch == 'y'); }
        else if u == 0x7a { assert(ch == 'z'); } else if u == 0x7b { assert(ch == '{'); }
        else if u == 0x7c { assert(ch == '|'); } else if u == 0x7d { assert(ch == '}'); }
        else { assert(ch == '~'); }
    }
}

/// CSI `n M` (delete lines) at a row inside the scroll region removes `n`
/// rows there (one when `n` is 0, at most down to the region's bottom): the
/// rows below move up by that many, as many blank rows in the current
/// rendition enter at the region's bottom, and rows above the cursor or
/// below the region stay. Outside the region nothing changes.
pub proof fn csi_delete_lines_removes_count_rows(s: TerminalStateView, n: usize, top: usize, bottom: usize)
    requires
        s.well_formed(),
        crate::grid::normalized_region_spec(s.scroll_region, s.grid.rows as usize) == Some((top, bottom)),
    ensures
        ({
            let g = s.grid;
            let g2 = apply_spec(s, csi_action_spec(seq![n], Seq::empty(), 'M')).grid;
            let r = s.cursor.row as int;
            let k: int = if n == 0 { 1 } else { n as int };
            let d: int = if k < bottom - r + 1 { k } else { bottom - r + 1 };
            &&& g2.rows == g.rows && g2.cols == g.cols && g2.scrollback == g.scrollback
            &&& g2.lines.len() == g.lines.len()
            &&& (top <= r <= bottom ==> {
                &&& forall|i: int| 0 <= i < r ==> #[trigger] g2.lines[i] == g.lines[i]
                &&& forall|i: int| r <= i <= bottom - d ==> #[trigger] g2.lines[i] == g.lines[i + d]
                &&& forall|i: int| bottom - d < i <= bottom ==> #[trigger] g2.lines[i] == crate::grid::blank_row(g.cols, s.style)
                &&& forall|i: int| bottom < i < g.rows ==> #[trigger] g2.lines[i] == g.lines[i]
            })
            &&& (!(top <= r <= bottom) ==> g2.lines == g.lines)
        }),
{
    reveal(apply_spec);
    reveal(crate::state::edit_effect);
    assert(seq![n][0] == n);
    assert(Seq::<u8>::empty() != seq![0x3fu8]);
    assert(Seq::<u8>::empty() != seq![0x3eu8]);
    assert(Seq::<u8>::empty() != seq![0x20u8]);
    let g = s.grid;
    let r = s.cursor.row as int;
    if top <= r <= bottom {
        let k: int = if n == 0 { 1 } else { n as int };
        let d: int = if k < bottom - r + 1 { k } else { bottom - r + 1 };
        let g2 = g.rows_deleted(r, d, bottom as int, s.style);
        assert(csi_action_spec(seq![n], Seq::empty(), 'M') == ActionOf::<Seq<char>, Seq<usize>>::DeleteLines(if n == 0 { 1 } else { n }));
        let a = g.lines.take(r);
        let b = g.lines.subrange(r + d, bottom + 1);
        let c = crate::grid::blank_rows(d as nat, g.cols, s.style);
        let e = g.lines.skip(bottom + 1);
        assert(g2.lines == a + b + c + e);
        assert forall|i: int| 0 <= i < r implies #[trigger] g2.lines[i] == g.lines[i] by {
            assert((a + b + c + e)[i] == a[i]);
        }
        assert forall|i: int| r <= i <= bottom - d implies #[trigger] g2.lines[i] == g.lines[i + d] by {
            assert((a + b + c + e)[i] == b[i - r]);
        }
        assert forall|i: int| bottom - d < i <= bottom implies #[trigger] g2.lines[i] == crate::grid::blank_row(g.cols, s.style) by {
            assert((a + b + c + e)[i] == c[i - (bottom + 1 - d)]);
        }
        assert forall|i: int| bottom < i < g.rows implies #[trigger] g2.lines[i] == g.lines[i] by {
            assert((a + b + c + e)[i] == e[i - (bottom + 1)]);
        }
    }
}

proof fn lemma_plain_csi(n: usize)
    ensures
        seq![n][0] == n,
        seq![n].len() == 1,
        Seq::<u8>::empty() != seq![0x3fu8],
        Seq::<u8>::empty() != seq![0x3eu8],
        Seq::<u8>::empty() != seq![0x20u8],
{
    assert(Seq::<u8>::empty().len() != seq![0x3fu8].len());
    assert(Seq::<u8>::empty().len() != seq![0x3eu8].len());
    assert(Seq::<u8>::empty().len() != seq![0x20u8].len());
}

/// CSI `n L` (insert lines) at a row inside the scroll region pushes the rows
/// from the cursor down by `n` (one when `n` is 0, at most to the region's
/// bottom), blank rows in the current rendition filling the gap; rows pushed
/// past the region's bottom are gone, and rows outside the region stay.
pub proof fn csi_insert_lines_opens_count_rows(s: TerminalStateView, n: usize, top: usize, bottom: usize)
    requires
        s.well_formed(),
        crate::grid::normalized_region_spec(s.scroll_region, s.grid.rows as usize) == Some((top, bottom)),
        top <= s.cursor.row <= bottom,
    ensures
        ({
            let g = s.grid;
            let g2 = apply_spec(s, csi_action_spec(seq![n], Seq::empty(), 'L')).grid;
            let r = s.cursor.row as int;
            let k: int = if n == 0 { 1 } else { n as int };
            let d: int = if k < bottom - r + 1 { k } else { bottom - r + 1 };
            &&& g2.rows == g.rows && g2.cols == g.cols && g2.scrollback == g.scrollback
            &&& g2.lines.len() == g.lines.len()
            &&& forall|i: int| 0 <= i < r ==> #[trigger] g2.lines[i] == g.lines[i]
            &&& forall|i: int| r <= i < r + d ==> #[trigger] g2.lines[i] == crate::grid::blank_row(g.cols, s.style)
            &&& forall|i: int| r + d <= i <= bottom ==> #[trigger] g2.lines[i] == g.lines[i - d]
            &&& forall|i: int| bottom < i < g.rows ==> #[trigger] g2.lines[i] == g.lines[i]
        }),
{
    reveal(apply_spec);
    reveal(crate::state::edit_effect);
    lemma_plain_csi(n);
    let g = s.grid;
    let r = s.cursor.row as int;
    let k: int = if n == 0 { 1 } else { n as int };
    let d: int = if k < bottom - r + 1 { k } else { bottom - r + 1 };
    let g2 = g.rows_inserted(r, d, bottom as int, s.style);
    let a = g.lines.take(r);
    let b = crate::grid::blank_rows(d as nat, g.cols, s.style);
    let c = g.lines.subrange(r, bottom + 1 - d);
    let e = g.lines.skip(bottom + 1);
    assert(g2.lines == a + b + c + e);
    assert forall|i: int| 0 <= i < r implies #[trigger] g2.lines[i] == g.lines[i] by {
        assert((a + b + c + e)[i] == a[i]);
    }
    assert forall|i: int| r <= i < r + d implies #[trigger] g2.lines[i] == crate::grid::blank_row(g.cols, s.style) by {
        assert((a + b + c + e)[i] == b[i - r]);
    }
    assert forall|i: int| r + d <= i <= bottom implies #[trigger] g2.lines[i] == g.lines[i - d] by {
        assert((a + b + c + e)[i] == c[i - r - d]);
    }
    assert forall|i: int| bottom < i < g.rows implies #[trigger] g2.lines[i] == g.lines[i] by {
        assert((a + b + c + e)[i] == e[i - (bottom + 1)]);
    }
}

/// CSI `n P` (delete characters) removes `n` cells at the cursor (one when
/// `n` is 0, at most to the end of the row): the rest of the row moves left and
/// blanks in the current rendition fill in at its end; other rows stay.
pub proof fn csi_delete_chars_pulls_row_left(s: TerminalStateView, n: usize)
    requires
        s.well_formed(),
    ensures
        ({
            let g = s.grid;
            let g2 = apply_spec(s, csi_action_spec(seq![n], Seq::empty(), 'P')).grid;
            let r = s.cursor.row as int;
            let c = s.cursor.col as int;
            let k: int = if n == 0 { 1 } else { n as int };
            let d: int = if k < g.cols - c { k } else { g.cols - c };
            &&& g2.lines.len() == g.lines.len()
            &&& forall|i: int| 0 <= i < g.rows && i != r ==> #[trigger] g2.lines[i] == g.lines[i]
            &&& g2.lines[r].len() == g.cols
            &&& forall|j: int| 0 <= j < c ==> #[trigger] g2.lines[r][j] == g.lines[r][j]
            &&& forall|j: int| c <= j < g.cols - d ==> #[trigger] g2.lines[r][j] == g.lines[r][j + d]
            &&& forall|j: int| g.cols - d <= j < g.cols ==> #[trigger] g2.lines[r][j] == crate::cell::blank_cell(s.style)
        }),
{
    reveal(apply_spec);
    reveal(crate::state::edit_effect);
    lemma_plain_csi(n);
    let g = s.grid;
    let r = s.cursor.row as int;
    let c = s.cursor.col as int;
    let k: int = if n == 0 { 1 } else { n as int };
    let d: int = if k < g.cols - c { k } else { g.cols - c };
    let line = g.lines[r];
    assert(line.len() == g.cols);
    let x = line.take(c);
    let y = line.skip(c + d);
    let z = crate::grid::blank_row(d as nat, s.style);
    let g2 = apply_spec(s, csi_action_spec(seq![n], Seq::empty(), 'P')).grid;
    assert(g2.lines[r] == x + y + z);
    assert forall|j: int| 0 <= j < c implies #[trigger] g2.lines[r][j] == g.lines[r][j] by {
        assert((x + y + z)[j] == x[j]);
    }
    assert forall|j: int| c <= j < g.cols - d implies #[trigger] g2.lines[r][j] == g.lines[r][j + d] by {
        assert((x + y + z)[j] == y[j - c]);
    }
    assert forall|j: int| g.cols - d <= j < g.cols implies #[trigger] g2.lines[r][j] == crate::cell::blank_cell(s.style) by {
        assert((x + y + z)[j] == z[j - (g.cols - d)]);
    }
}

/// CSI `n @` (insert characters) opens `n` blank cells at the cursor (one
/// when `n` is 0, at most to the end of the row): the rest of the row moves
/// right and cells pushed past its end are gone; other rows stay.
pub proof fn csi_insert_chars_pushes_row_right(s: TerminalStateView, n: usize)
    requires
        s.well_formed(),
    ensures
        ({
            let g = s.grid;
            let g2 = apply_spec(s, csi_action_spec(seq![n], Seq::empty(), '@')).grid;
            let r = s.cursor.row as int;
            let c = s.cursor.col as int;
            let k: int = if n == 0 { 1 } else { n as int };
            let d: int = if k < g.cols - c { k } else { g.cols - c };
            &&& g2.lines.len() == g.lines.len()
            &&& forall|i: int| 0 <= i < g.rows && i != r ==> #[trigger] g2.lines[i] == g.lines[i]
            &&& g2.lines[r].len() == g.cols
            &&& forall|j: int| 0 <= j < c ==> #[trigger] g2.lines[r][j] == g.lines[r][j]
            &&& forall|j: int| c <= j < c + d ==> #[trigger] g2.lines[r][j] == crate::cell::blank_cell(s.style)
            &&& forall|j: int| c + d <= j < g.cols ==> #[trigger] g2.lines[r][j] == g.lines[r][j - d]
        }),
{
    reveal(apply_spec);
    reveal(crate::state::edit_effect);
    lemma_plain_csi(n);
    let g = s.grid;
    let r = s.cursor.row as int;
    let c = s.cursor.col as int;
    let k: int = if n == 0 { 1 } else { n as int };
    let d: int = if k < g.cols - c { k } else { g.cols - c };
    let line = g.lines[r];
    assert(line.len() == g.cols);
    let x = line.take(c);
    let y = crate::grid::blank_row(d as nat, s.style);
    let z = line.subrange(c, g.cols - d);
    let g2 = apply_spec(s, csi_action_spec(seq![n], Seq::empty(), '@')).grid;
    assert(g2.lines[r] == x + y + z);
    assert forall|j: int| 0 <= j < c implies #[trigger] g2.lines[r][j] == g.lines[r][j] by {
        assert((x + y + z)[j] == x[j]);
    }
    assert forall|j: int| c <= j < c + d implies #[trigger] g2.lines[r][j] == crate::cell::blank_cell(s.style) by {
        assert((x + y + z)[j] == y[j - c]);
    }
    assert forall|j: int| c + d <= j < g.cols implies #[trigger] g2.lines[r][j] == g.lines[r][j - d] by {
        assert((x + y + z)[j] == z[j - c - d]);
    }
}

/// CSI `row ; col H` puts the cursor at the one-based row and column (a
/// missing or zero number meaning the first), clamped to the screen.
pub proof fn csi_cursor_position_is_one_based(s: TerminalStateView, row: usize, col: usize)
    requires
        s.well_formed(),
    ensures
        ({
            let r: int = if row == 0 { 0 } else { row - 1 };
            let c: int = if col == 0 { 0 } else { col - 1 };
            let t = apply_spec(s, csi_action_spec(seq![row, col], Seq::empty(), 'H')).cursor;
            &&& t.row == (if r < s.grid.rows { r } else { s.grid.rows - 1 })
            &&& t.col == (if c < s.grid.cols { c } else { s.grid.cols - 1 })
            &&& apply_spec(s, csi_action_spec(Seq::empty(), Seq::empty(), 'H')).cursor == (Cursor { row: 0, col: 0 })
        }),
{
    reveal(apply_spec);
    lemma_plain_csi(row);
    assert(seq![row, col][0] == row);
    assert(seq![row, col][1] == col);
}

/// Each SGR attribute number turns its attribute on (1 bold, 3 italic,
/// 4 underline, 7 inverse) and its partner turns it off again (22, 23, 24,
/// 27); 39 and 49 return to the default colors. Nothing else in the style
/// changes.
pub proof fn sgr_attributes_toggle(style: Style)
    ensures
        apply_sgr_spec(style, seq![1]) == (Style { bold: true, ..style }),
        apply_sgr_spec(style, seq![22]) == (Style { bold: false, ..style }),
        apply_sgr_spec(style, seq![3]) == (Style { italic: true, ..style }),
        apply_sgr_spec(style, seq![23]) == (Style { italic: false, ..style }),
        apply_sgr_spec(style, seq![4]) == (Style { underline: true, ..style }),
        apply_sgr_spec(style, seq![24]) == (Style { underline: false, ..style }),
        apply_sgr_spec(style, seq![7]) == (Style { inverse: true, ..style }),
        apply_sgr_spec(style, seq![27]) == (Style { inverse: false, ..style }),
        apply_sgr_spec(style, seq![39]) == (Style { foreground: None, ..style }),
        apply_sgr_spec(style, seq![49]) == (Style { background: None, ..style }),
        apply_sgr_spec(style, seq![1, 4]) == (Style { bold: true, underline: true, ..style }),
        apply_sgr_spec(style, seq![1, 22]) == (Style { bold: false, ..style }),
{
    reveal_with_fuel(crate::parser::sgr_from, 3);
    assert(seq![1usize, 4usize][1] == 4usize);
    assert(seq![1usize, 22usize][1] == 22usize);
}

/// A number as a byte, with anything past 255 taken as 255.
pub open spec fn byte_or_max(n: usize) -> u8 {
    if n > 255 { 255 } else { n as u8 }
}

/// SGR 38;5;n and 48;5;n pick palette entry n (past 255 taken as 255) for
/// the foreground and background, 38;2;r;g;b and 48;2;r;g;b a direct
/// color; the numbers of the color are used up, and a number after them
/// acts as an SGR number of its own.
pub proof fn sgr_extended_colors(style: Style, i: usize, r: usize, g: usize, b: usize)
    ensures
        ({
            &&& apply_sgr_spec(style, seq![38, 5, i]) == (Style { foreground: Some(Color::Indexed(byte_or_max(i))), ..style })
            &&& apply_sgr_spec(style, seq![48, 5, i]) == (Style { background: Some(Color::Indexed(byte_or_max(i))), ..style })
            &&& apply_sgr_spec(style, seq![38, 2, r, g, b])
                == (Style { foreground: Some(Color::Rgb(byte_or_max(r), byte_or_max(g), byte_or_max(b))), ..style })
            &&& apply_sgr_spec(style, seq![48, 2, r, g, b])
                == (Style { background: Some(Color::Rgb(byte_or_max(r), byte_or_max(g), byte_or_max(b))), ..style })
            &&& apply_sgr_spec(style, seq![38, 5, i, 1])
                == (Style { foreground: Some(Color::Indexed(byte_or_max(i))), bold: true, ..style })
        }),
{
    reveal_with_fuel(crate::parser::sgr_from, 3);
    assert(seq![38usize, 5usize, i].skip(1) =~= seq![5usize, i]);
    assert(seq![48usize, 5usize, i].skip(1) =~= seq![5usize, i]);
    assert(seq![38usize, 2usize, r, g, b].skip(1) =~= seq![2usize, r, g, b]);
    assert(seq![48usize, 2usize, r, g, b].skip(1) =~= seq![2usize, r, g, b]);
    assert(seq![38usize, 5usize, i, 1usize].skip(1) =~= seq![5usize, i, 1usize]);
}

/// CSI `m K` blanks, on the cursor's row and in the current rendition, the
/// cells from the cursor to the end (m = 0), from the start through the
/// cursor (m = 1) or the whole row (m = 2); CSI `n X` blanks `n` cells from
/// the cursor on (one when `n` is 0, at most to the end of the row). The
/// other cells, the other rows and the cursor stay.
pub proof fn csi_erase_in_line_and_chars(s: TerminalStateView, m: usize, n: usize)
    requires
        s.well_formed(),
        m <= 2,
    ensures
        ({
            let g = s.grid;
            let r = s.cursor.row as int;
            let c = s.cursor.col as int;
            let t = apply_spec(s, csi_action_spec(seq![m], Seq::empty(), 'K'));
            &&& t.cursor == s.cursor
            &&& t.grid.lines.len() == g.lines.len()
            &&& forall|i: int| 0 <= i < g.rows && i != r ==> #[trigger] t.grid.lines[i] == g.lines[i]
            &&& t.grid.lines[r].len() == g.cols
            &&& forall|j: int| 0 <= j < g.cols ==> #[trigger] t.grid.lines[r][j] == (
                if (m == 0 && j >= c) || (m == 1 && j <= c) || m == 2 { crate::cell::blank_cell(s.style) } else { g.lines[r][j] })
        }),
        ({
            let g = s.grid;
            let r = s.cursor.row as int;
            let c = s.cursor.col as int;
            let k: int = if n == 0 { 1 } else { n as int };
            let t = apply_spec(s, csi_action_spec(seq![n], Seq::empty(), 'X'));
            &&& t.cursor == s.cursor
            &&& t.grid.lines.len() == g.lines.len()
            &&& forall|i: int| 0 <= i < g.rows && i != r ==> #[trigger] t.grid.lines[i] == g.lines[i]
            &&& t.grid.lines[r].len() == g.cols
            &&& forall|j: int| 0 <= j < g.cols ==> #[trigger] t.grid.lines[r][j] == (
                if c <= j < c + k { crate::cell::blank_cell(s.style) } else { g.lines[r][j] })
        }),
{
    reveal(apply_spec);
    reveal(crate::state::edit_effect);
    reveal(crate::state::clear_line_effect);
    lemma_plain_csi(m);
    lemma_plain_csi(n);
}

/// A line feed with no scroll region set moves the cursor to the start of
/// the next row; on the last row the screen scrolls instead: every row moves
/// up one, the top row goes to the end of the history (which keeps its most
/// recent lines only), and a blank row enters at the bottom.
pub proof fn newline_moves_down_or_scrolls_into_history(s: TerminalStateView)
    requires
        s.well_formed(),
        s.scroll_region is None,
    ensures
        ({
            let g = s.grid;
            let t = apply_spec(s, execute_spec(initial_charsets(), 0x0a).1->Some_0);
            let last = s.cursor.row + 1 == g.rows;
            &&& execute_spec(initial_charsets(), 0x0a).1 == Some(ActionOf::<Seq<char>, Seq<usize>>::Newline)
            &&& t.cursor == (Cursor { row: if last { s.cursor.row } else { (s.cursor.row + 1) as usize }, col: 0 })
            &&& !last ==> t.grid == g
            &&& last ==> {
                &&& t.grid.lines.len() == g.rows
                &&& (forall|i: int| 0 <= i < g.rows - 1 ==> #[trigger] t.grid.lines[i] == g.lines[i + 1])
                &&& t.grid.lines[g.rows - 1] == crate::grid::blank_row(g.cols, plain_style())
                &&& t.grid.scrollback.last() == g.lines[0]
                &&& t.grid.scrollback.len() == (if g.scrollback.len() < crate::grid::MAX_SCROLLBACK_LINES {
                    g.scrollback.len() + 1int
                } else {
                    crate::grid::MAX_SCROLLBACK_LINES as int
                })
            }
        }),
{
    reveal(apply_spec);
    reveal(crate::state::newline_effect);
}

} // verus!
