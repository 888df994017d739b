use vstd::prelude::*;

use crate::cursor::{Cursor, CursorStyle};
use crate::cell::Cell;
use crate::grid::{max1, min_int, 
    backspace_spec, fresh_grid, moved_left, moved_up, newline_in_region_spec, put_char_spec, rendered_text,
    styled_text, Grid, GridView,
};
use crate::parser::{
    action_view, actions_view, apply_sgr, apply_sgr_spec, run_events, Action, ActionOf, ActionView, CharsetState,
    LineClearMode, EscapeParser, ScreenClearMode, events_extend, new_events,
};
use crate::style::{plain_style, styled_line_view, Style, StyledLine};
use crate::text::{char_width, char_width_spec, decimal, push_bytes, push_decimal};

verus! {

/// The terminal modes that applications switch and the front end reads.
#[derive(Clone, Copy, Debug, PartialEq, Eq, Structural)]
pub struct TerminalModes {
    pub cursor_visible: bool,
    pub application_cursor_keys: bool,
    pub application_keypad: bool,
    pub bracketed_paste: bool,
    pub mouse_reporting: bool,
    pub sgr_mouse: bool,
    pub cursor_style: CursorStyle,
}

/// A visible block cursor and every other mode off.
pub open spec fn default_modes() -> TerminalModes {
    TerminalModes {
        cursor_visible: true,
        application_cursor_keys: false,
        application_keypad: false,
        bracketed_paste: false,
        mouse_reporting: false,
        sgr_mouse: false,
        cursor_style: CursorStyle::Block,
    }
}

impl Default for TerminalModes {
    fn default() -> (m: TerminalModes)
        ensures
            m == default_modes(),
    {
        TerminalModes {
            cursor_visible: true,
            application_cursor_keys: false,
            application_keypad: false,
            bracketed_paste: false,
            mouse_reporting: false,
            sgr_mouse: false,
            cursor_style: CursorStyle::Block,
        }
    }
}

/// What the front end draws: a window of rows as plain and styled text, the
/// cursor relative to that window, the modes, and where the window lies.
#[derive(Clone, Debug, PartialEq, Eq)]
pub struct TerminalSnapshot {
    pub lines: Vec<String>,
    pub styled_lines: Vec<StyledLine>,
    pub cursor: Cursor,
    pub modes: TerminalModes,
    pub scrollback_len: usize,
    pub viewport_start_absolute_row: usize,
}

/// The text of each line of a snapshot.
pub open spec fn lines_view(lines: Seq<String>) -> Seq<Seq<char>> {
    Seq::new(lines.len(), |i: int| lines[i]@)
}

/// The styled content of each line of a snapshot.
pub open spec fn styled_lines_view(lines: Seq<StyledLine>) -> Seq<Seq<(Seq<char>, crate::style::Style)>> {
    Seq::new(lines.len(), |i: int| styled_line_view(lines[i]))
}

/// The abstract state of a terminal.
pub struct TerminalStateView {
    pub grid: GridView,
    pub cursor: Cursor,
    pub style: Style,
    pub saved_cursor: Option<Cursor>,
    pub scroll_region: Option<(usize, usize)>,
    pub modes: TerminalModes,
    pub wrap_pending: bool,
    pub main_screen: Option<(GridView, Cursor)>,
    pub responses: Seq<u8>,
    pub clipboard: Seq<Seq<char>>,
    pub titles: Seq<Seq<char>>,
    pub charsets: CharsetState,
    /// The program output fed so far, one piece per call, which decides what
    /// the escape-sequence parser holds of a sequence not yet complete.
    pub fed: Seq<Seq<u8>>,
}

/// The reply to a primary device attributes request: a VT100 with advanced video.
pub open spec fn primary_attributes_reply() -> Seq<u8> {
    seq![0x1bu8, 0x5b, 0x3f, 0x31, 0x3b, 0x32, 0x63]
}

/// The reply to a secondary device attributes request.
pub open spec fn secondary_attributes_reply() -> Seq<u8> {
    seq![0x1bu8, 0x5b, 0x3e, 0x31, 0x3b, 0x31, 0x30, 0x3b, 0x30, 0x63]
}

/// The reply to a status report request: "OK".
pub open spec fn status_ok_reply() -> Seq<u8> {
    seq![0x1bu8, 0x5b, 0x30, 0x6e]
}

/// The reply to a cursor position request, one-based.
pub open spec fn cursor_position_reply(c: Cursor) -> Seq<u8> {
    seq![0x1bu8, 0x5b] + decimal((c.row + 1) as nat) + seq![0x3bu8] + decimal((c.col + 1) as nat) + seq![0x52u8]
}

/// The next tab stop (every eight columns), stopping at the last column.
pub open spec fn next_tab_col(col: usize, cols: nat) -> usize {
    let next = (col / 8 + 1) * 8;
    if next < cols - 1 {
        next as usize
    } else {
        (cols - 1) as usize
    }
}

impl TerminalStateView {
    pub open spec fn well_formed(self) -> bool {
        &&& self.grid.well_formed()
        &&& self.grid.holds(self.cursor)
        &&& match self.main_screen {
            Some((g, c)) => g.well_formed() && g.rows == self.grid.rows && g.cols == self.grid.cols && g.holds(c),
            None => true,
        }
    }

    pub open spec fn with_modes(self, modes: TerminalModes) -> TerminalStateView {
        TerminalStateView { modes, ..self }
    }

    pub open spec fn with_grid(self, grid: GridView) -> TerminalStateView {
        TerminalStateView { grid, wrap_pending: false, ..self }
    }

    pub open spec fn with_cursor(self, cursor: Cursor) -> TerminalStateView {
        TerminalStateView { cursor, wrap_pending: false, ..self }
    }

    pub open spec fn replying(self, reply: Seq<u8>) -> TerminalStateView {
        TerminalStateView { responses: self.responses + reply, ..self }
    }
}

/// Printing a character at the cursor in the current style; a wrap left
/// pending by the previous character happens first.
#[verifier::opaque]
pub open spec fn print_effect(s: TerminalStateView, ch: char) -> TerminalStateView {
    let w = char_width_spec(ch);
    let (g0, c0) = if s.wrap_pending && w > 0 {
        newline_in_region_spec(s.grid, s.cursor, s.scroll_region, s.style)
    } else {
        (s.grid, s.cursor)
    };
    let (g1, c1, wrapped) = put_char_spec(g0, c0, ch, s.style);
    TerminalStateView { grid: g1, cursor: c1, wrap_pending: if w > 0 { wrapped } else { s.wrap_pending }, ..s }
}

/// Line feed inside the scroll region.
#[verifier::opaque]
pub open spec fn newline_effect(s: TerminalStateView) -> TerminalStateView {
    let (g, c) = newline_in_region_spec(s.grid, s.cursor, s.scroll_region, s.style);
    s.with_grid(g).with_cursor(c)
}

#[verifier::opaque]
pub open spec fn backspace_effect(s: TerminalStateView) -> TerminalStateView {
    let (g, c) = backspace_spec(s.grid, s.cursor);
    s.with_grid(g).with_cursor(c)
}

#[verifier::opaque]
pub open spec fn clear_line_effect(s: TerminalStateView, mode: LineClearMode) -> TerminalStateView {
    s.with_grid(
        match mode {
            LineClearMode::FromCursor => s.grid.line_cleared_from(s.cursor, s.style),
            LineClearMode::ToCursor => s.grid.line_cleared_to(s.cursor, s.style),
            LineClearMode::Entire => s.grid.entire_line_cleared(s.cursor.row, s.style),
        },
    )
}

#[verifier::opaque]
pub open spec fn clear_screen_effect(s: TerminalStateView, mode: ScreenClearMode) -> TerminalStateView {
    match mode {
        ScreenClearMode::FromCursor => s.with_grid(s.grid.screen_cleared_from(s.cursor, s.style)),
        ScreenClearMode::ToCursor => s.with_grid(s.grid.screen_cleared_to(s.cursor, s.style)),
        ScreenClearMode::Entire => s.with_grid(s.grid.screen_cleared(s.style)).with_cursor(Cursor { row: 0, col: 0 }),
    }
}

/// The main screen and cursor are kept aside and a blank screen of the
/// same size shows, with the cursor at home; nothing happens when the
/// alternate screen already shows.
#[verifier::opaque]
pub open spec fn enter_alternate_effect(s: TerminalStateView) -> TerminalStateView {
    match s.main_screen {
        None => TerminalStateView {
            main_screen: Some((s.grid, s.cursor)),
            ..s.with_grid(fresh_grid(s.grid.rows, s.grid.cols)).with_cursor(Cursor { row: 0, col: 0 })
        },
        Some(_) => s,
    }
}

/// The main screen and its cursor come back; nothing happens on the main screen.
#[verifier::opaque]
pub open spec fn exit_alternate_effect(s: TerminalStateView) -> TerminalStateView {
    match s.main_screen {
        Some((g, c)) => TerminalStateView { main_screen: None, ..s.with_grid(g).with_cursor(c) },
        None => s,
    }
}

/// The editing functions that insert, delete or erase at the cursor.
pub enum EditKind {
    InsertChars,
    DeleteChars,
    EraseChars,
    InsertLines,
    DeleteLines,
}

/// ICH, DCH, ECH, IL and DL at the cursor, in the current style; lines only
/// inside the scroll region.
#[verifier::opaque]
pub open spec fn edit_effect(s: TerminalStateView, kind: EditKind, n: usize) -> TerminalStateView {
    s.with_grid(
        match kind {
            EditKind::InsertChars => s.grid.chars_inserted(s.cursor, n, s.style),
            EditKind::DeleteChars => s.grid.chars_deleted(s.cursor, n, s.style),
            EditKind::EraseChars => s.grid.chars_erased(s.cursor, n, s.style),
            EditKind::InsertLines => s.grid.blank_lines_inserted(s.cursor, n, s.scroll_region, s.style),
            EditKind::DeleteLines => s.grid.lines_deleted(s.cursor, n, s.scroll_region, s.style),
        },
    )
}

/// What one action does to the terminal.
#[verifier::opaque]
pub open spec fn apply_spec(s: TerminalStateView, a: ActionView) -> TerminalStateView {
    match a {
        ActionOf::Print(ch) => print_effect(s, ch),
        ActionOf::CarriageReturn => s.with_cursor(Cursor { col: 0, ..s.cursor }),
        ActionOf::Newline => newline_effect(s),
        ActionOf::Backspace => backspace_effect(s),
        ActionOf::Tab => s.with_cursor(Cursor { col: next_tab_col(s.cursor.col, s.grid.cols), ..s.cursor }),
        ActionOf::ClearLine(mode) => clear_line_effect(s, mode),
        ActionOf::ClearScreen(mode) => clear_screen_effect(s, mode),
        ActionOf::InsertBlankChars(n) => edit_effect(s, EditKind::InsertChars, n),
        ActionOf::DeleteChars(n) => edit_effect(s, EditKind::DeleteChars, n),
        ActionOf::EraseChars(n) => edit_effect(s, EditKind::EraseChars, n),
        ActionOf::InsertLines(n) => edit_effect(s, EditKind::InsertLines, n),
        ActionOf::DeleteLines(n) => edit_effect(s, EditKind::DeleteLines, n),
        ActionOf::SaveCursor => TerminalStateView { saved_cursor: Some(s.cursor), ..s },
        ActionOf::RestoreCursor => match s.saved_cursor {
            Some(c) => s.with_cursor(s.grid.clamped(c.row, c.col)),
            None => s,
        },
        ActionOf::EnterAlternateScreen => enter_alternate_effect(s),
        ActionOf::ExitAlternateScreen => exit_alternate_effect(s),
        ActionOf::SetApplicationCursorKeys(b) => s.with_modes(TerminalModes { application_cursor_keys: b, ..s.modes }),
        ActionOf::SetApplicationKeypad(b) => s.with_modes(TerminalModes { application_keypad: b, ..s.modes }),
        ActionOf::SetBracketedPaste(b) => s.with_modes(TerminalModes { bracketed_paste: b, ..s.modes }),
        ActionOf::SetCursorVisible(b) => s.with_modes(TerminalModes { cursor_visible: b, ..s.modes }),
        ActionOf::SetCursorStyle(st) => s.with_modes(TerminalModes { cursor_style: st, ..s.modes }),
        ActionOf::SetMouseReporting(b) => s.with_modes(TerminalModes { mouse_reporting: b, ..s.modes }),
        ActionOf::SetSgrMouse(b) => s.with_modes(TerminalModes { sgr_mouse: b, ..s.modes }),
        ActionOf::PrimaryDeviceAttributes => s.replying(primary_attributes_reply()),
        ActionOf::SecondaryDeviceAttributes => s.replying(secondary_attributes_reply()),
        ActionOf::SetClipboard(t) => TerminalStateView { clipboard: s.clipboard.push(t), ..s },
        ActionOf::ClipboardQueryDenied(_) => s,
        ActionOf::SetWindowTitle(t) => TerminalStateView { titles: s.titles.push(t), ..s },
        ActionOf::DeviceStatusReport => s.replying(status_ok_reply()),
        ActionOf::CursorPositionReport => s.replying(cursor_position_reply(s.cursor)),
        ActionOf::CursorPosition { row, col } => s.with_cursor(s.grid.clamped(row, col)),
        ActionOf::CursorUp(n) => s.with_cursor(moved_up(s.cursor, n)),
        ActionOf::CursorDown(n) => s.with_cursor(s.grid.moved_down(s.cursor, n)),
        ActionOf::CursorRight(n) => s.with_cursor(s.grid.moved_right(s.cursor, n)),
        ActionOf::CursorLeft(n) => s.with_cursor(moved_left(s.cursor, n)),
        ActionOf::CursorColumn(col) => s.with_cursor(s.grid.clamped(s.cursor.row, col)),
        ActionOf::SetScrollRegion(r) => TerminalStateView { scroll_region: r, ..s.with_cursor(Cursor { row: 0, col: 0 }) },
        ActionOf::SetGraphicRendition(numbers) => TerminalStateView { style: apply_sgr_spec(s.style, numbers), ..s },
        ActionOf::Ignore => s,
    }
}

/// Actions applied in order.
pub open spec fn apply_all(s: TerminalStateView, actions: Seq<ActionView>) -> TerminalStateView
    decreases actions.len(),
{
    if actions.len() == 0 {
        s
    } else {
        apply_spec(apply_all(s, actions.drop_last()), actions.last())
    }
}

pub open spec fn is_cell_action(a: ActionView) -> bool {
    a is Print || a is CarriageReturn || a is Newline || a is Backspace || a is Tab
}

pub open spec fn is_edit_action(a: ActionView) -> bool {
    a is ClearLine || a is ClearScreen || a is InsertBlankChars || a is DeleteChars || a is EraseChars || a is InsertLines || a is DeleteLines
}

pub open spec fn is_cursor_action(a: ActionView) -> bool {
    a is SaveCursor || a is RestoreCursor || a is EnterAlternateScreen || a is ExitAlternateScreen || a is SetScrollRegion
}

pub open spec fn is_motion_action(a: ActionView) -> bool {
    a is CursorPosition || a is CursorUp || a is CursorDown || a is CursorRight || a is CursorLeft || a is CursorColumn
}

pub open spec fn is_mode_action(a: ActionView) -> bool {
    a is SetApplicationCursorKeys || a is SetApplicationKeypad || a is SetBracketedPaste || a is SetCursorVisible || a is SetCursorStyle
}

pub open spec fn is_rendition_action(a: ActionView) -> bool {
    a is SetMouseReporting || a is SetSgrMouse || a is SetGraphicRendition || a is Ignore
}

pub open spec fn is_reply_action(a: ActionView) -> bool {
    a is PrimaryDeviceAttributes || a is SecondaryDeviceAttributes || a is SetClipboard || a is ClipboardQueryDenied || a is SetWindowTitle || a is DeviceStatusReport || a is CursorPositionReport
}

fn action_is_cell(a: &Action) -> (b: bool)
    ensures
        b == is_cell_action(action_view(*a)),
{
    match a {
        ActionOf::Print(..) | ActionOf::CarriageReturn | ActionOf::Newline | ActionOf::Backspace | ActionOf::Tab => true,
        _ => false,
    }
}

fn action_is_edit(a: &Action) -> (b: bool)
    ensures
        b == is_edit_action(action_view(*a)),
{
    match a {
        ActionOf::ClearLine(..) | ActionOf::ClearScreen(..) | ActionOf::InsertBlankChars(..) | ActionOf::DeleteChars(..) | ActionOf::EraseChars(..) | ActionOf::InsertLines(..) | ActionOf::DeleteLines(..) => true,
        _ => false,
    }
}

fn action_is_cursor(a: &Action) -> (b: bool)
    ensures
        b == is_cursor_action(action_view(*a)),
{
    match a {
        ActionOf::SaveCursor | ActionOf::RestoreCursor | ActionOf::EnterAlternateScreen | ActionOf::ExitAlternateScreen | ActionOf::SetScrollRegion(..) => true,
        _ => false,
    }
}

fn action_is_motion(a: &Action) -> (b: bool)
    ensures
        b == is_motion_action(action_view(*a)),
{
    match a {
        ActionOf::CursorPosition { .. } | ActionOf::CursorUp(..) | ActionOf::CursorDown(..) | ActionOf::CursorRight(..) | ActionOf::CursorLeft(..) | ActionOf::CursorColumn(..) => true,
        _ => false,
    }
}

fn action_is_mode(a: &Action) -> (b: bool)
    ensures
        b == is_mode_action(action_view(*a)),
{
    match a {
        ActionOf::SetApplicationCursorKeys(..) | ActionOf::SetApplicationKeypad(..) | ActionOf::SetBracketedPaste(..) | ActionOf::SetCursorVisible(..) | ActionOf::SetCursorStyle(..) => true,
        _ => false,
    }
}

fn action_is_rendition(a: &Action) -> (b: bool)
    ensures
        b == is_rendition_action(action_view(*a)),
{
    match a {
        ActionOf::SetMouseReporting(..) | ActionOf::SetSgrMouse(..) | ActionOf::SetGraphicRendition(..) | ActionOf::Ignore => true,
        _ => false,
    }
}

fn action_is_reply(a: &Action) -> (b: bool)
    ensures
        b == is_reply_action(action_view(*a)),
{
    match a {
        ActionOf::PrimaryDeviceAttributes | ActionOf::SecondaryDeviceAttributes | ActionOf::SetClipboard(..) | ActionOf::ClipboardQueryDenied(..) | ActionOf::SetWindowTitle(..) | ActionOf::DeviceStatusReport | ActionOf::CursorPositionReport => true,
        _ => false,
    }
}

/// The rows that `snapshot` shows: as many as asked for (at least one, at
/// most the screen), from the top unless the cursor would fall below them,
/// in which case they end at the cursor's row. The result is `(start, count)`.
pub open spec fn snapshot_window(s: TerminalStateView, max_visible_lines: usize) -> (int, int) {
    let visible = min_int(max1(max_visible_lines), s.grid.rows as int);
    let start = if s.cursor.row < visible { 0 } else { s.cursor.row + 1 - visible };
    (start, visible)
}

/// Row `abs` of the history followed by the screen.
pub open spec fn combined_row(g: GridView, abs: int) -> Seq<Cell> {
    if abs < g.scrollback.len() {
        g.scrollback[abs]
    } else {
        g.lines[abs - g.scrollback.len()]
    }
}

pub open spec fn saturating_sum(a: int, b: int) -> int {
    min_int(a + b, usize::MAX as int)
}

/// The rows `[start, end)` of history-then-screen that `combined_snapshot`
/// shows: as many as asked for (at least one), ending `offset_from_bottom`
/// rows (at most the whole history) above the bottom of the screen.
pub open spec fn combined_window(g: GridView, offset_from_bottom: usize, max_visible_lines: usize) -> (int, int) {
    let history = g.scrollback.len() as int;
    let total = saturating_sum(history, g.rows as int);
    let visible = min_int(max1(max_visible_lines), total);
    let offset = min_int(offset_from_bottom as int, history);
    let end = total - offset;
    let start = if end > visible { end - visible } else { 0 };
    (start, end)
}

/// After a resize: both screens are resized, cursors clamped to them, and
/// the scroll region reset.
pub open spec fn resize_effect(s: TerminalStateView, rows: usize, cols: usize) -> TerminalStateView {
    let g = s.grid.resized(rows, cols);
    TerminalStateView {
        grid: g,
        cursor: g.clamped(s.cursor.row, s.cursor.col),
        scroll_region: None,
        wrap_pending: false,
        main_screen: match s.main_screen {
            Some((m, c)) => Some((m.resized(rows, cols), m.resized(rows, cols).clamped(c.row, c.col))),
            None => None,
        },
        ..s
    }
}

/// A terminal: screen contents, cursor, modes and the parser state, plus
/// the replies, clipboard writes and titles that wait for the front end.
pub struct TerminalState {
    grid: Grid,
    cursor: Cursor,
    parser: EscapeParser,
    style: Style,
    saved_cursor: Option<Cursor>,
    scroll_region: Option<(usize, usize)>,
    modes: TerminalModes,
    wrap_pending: bool,
    main_screen: Option<(Grid, Cursor)>,
    responses: Vec<u8>,
    clipboard: Vec<String>,
    titles: Vec<String>,
}

pub open spec fn strings_view(v: Seq<String>) -> Seq<Seq<char>> {
    Seq::new(v.len(), |i: int| v[i]@)
}

/// A new terminal: a blank screen of the given size (at least one row and one
/// column) with no history, the cursor home, plain rendition, default modes and
/// character sets, and nothing waiting for the host.
pub open spec fn initial_state(rows: usize, cols: usize) -> TerminalStateView {
    TerminalStateView {
        grid: fresh_grid(if rows == 0 { 1nat } else { rows as nat }, if cols == 0 { 1nat } else { cols as nat }),
        cursor: Cursor { row: 0, col: 0 },
        style: plain_style(),
        saved_cursor: None,
        scroll_region: None,
        modes: default_modes(),
        wrap_pending: false,
        main_screen: None,
        responses: Seq::empty(),
        clipboard: Seq::empty(),
        titles: Seq::empty(),
        charsets: crate::parser::initial_charsets(),
        fed: Seq::empty(),
    }
}

/// The terminal after the program writes `bytes` in one piece: the piece joins
/// those fed so far, and the actions of the parse events that it adds are
/// applied in order.
pub open spec fn append_spec(s: TerminalStateView, bytes: Seq<u8>) -> TerminalStateView {
    let fed = s.fed.push(bytes);
    let (charsets, actions) = run_events(s.charsets, new_events(s.fed, fed));
    apply_all(TerminalStateView { charsets, fed, ..s }, actions)
}

proof fn lemma_apply_keeps_fed(s: TerminalStateView, a: ActionView)
    ensures
        apply_spec(s, a).fed == s.fed,
        apply_spec(s, a).charsets == s.charsets,
{
    reveal(apply_spec);
    reveal(print_effect);
    reveal(newline_effect);
    reveal(backspace_effect);
    reveal(clear_line_effect);
    reveal(clear_screen_effect);
    reveal(enter_alternate_effect);
    reveal(exit_alternate_effect);
    reveal(edit_effect);
}

/// Actions leave the parser's part of the terminal alone.
proof fn lemma_apply_all_keeps_fed(s: TerminalStateView, actions: Seq<ActionView>)
    ensures
        apply_all(s, actions).fed == s.fed,
        apply_all(s, actions).charsets == s.charsets,
    decreases actions.len(),
{
    if actions.len() > 0 {
        lemma_apply_all_keeps_fed(s, actions.drop_last());
        lemma_apply_keeps_fed(apply_all(s, actions.drop_last()), actions.last());
    }
}

/// A snapshot of the screen rows around the cursor: at most
/// `max_visible_lines` rows (at least one), the cursor relative to them.
pub open spec fn is_screen_snapshot(s: TerminalStateView, max_visible_lines: usize, snap: TerminalSnapshot) -> bool {
    let (start, count) = snapshot_window(s, max_visible_lines);
    &&& lines_view(snap.lines@) == Seq::new(count as nat, |k: int| rendered_text(s.grid.lines[start + k]))
    &&& styled_lines_view(snap.styled_lines@) == Seq::new(count as nat, |k: int| styled_text(s.grid.lines[start + k]))
    &&& snap.cursor == (Cursor { row: (s.cursor.row - start) as usize, col: s.cursor.col })
    &&& snap.modes == s.modes
    &&& snap.scrollback_len == s.grid.scrollback.len()
    &&& snap.viewport_start_absolute_row == saturating_sum(s.grid.scrollback.len() as int, start)
}

/// The text of the rows that `combined_snapshot` shows.
pub open spec fn combined_text(s: TerminalStateView, offset_from_bottom: usize, max_visible_lines: usize) -> Seq<Seq<char>> {
    let (start, end) = combined_window(s.grid, offset_from_bottom, max_visible_lines);
    Seq::new((end - start) as nat, |k: int| rendered_text(combined_row(s.grid, start + k)))
}

/// A snapshot of a window over the history followed by the screen, ending
/// `offset_from_bottom` rows (at most the history) above the bottom.
pub open spec fn is_combined_snapshot(
    s: TerminalStateView,
    offset_from_bottom: usize,
    max_visible_lines: usize,
    snap: TerminalSnapshot,
) -> bool {
    let (start, end) = combined_window(s.grid, offset_from_bottom, max_visible_lines);
    let history = s.grid.scrollback.len() as int;
    let cursor_abs = saturating_sum(history, s.cursor.row as int);
    &&& lines_view(snap.lines@) == combined_text(s, offset_from_bottom, max_visible_lines)
    &&& styled_lines_view(snap.styled_lines@) == Seq::new((end - start) as nat, |k: int| styled_text(combined_row(s.grid, start + k)))
    &&& snap.cursor == (Cursor {
        row: (if cursor_abs >= start { cursor_abs - start } else { 0 }) as usize,
        col: s.cursor.col,
    })
    &&& snap.modes == s.modes
    &&& snap.scrollback_len == history
    &&& snap.viewport_start_absolute_row == start
}

impl View for TerminalState {
    type V = TerminalStateView;

    closed spec fn view(&self) -> TerminalStateView {
        TerminalStateView {
            grid: self.grid@,
            cursor: self.cursor,
            style: self.style,
            saved_cursor: self.saved_cursor,
            scroll_region: self.scroll_region,
            modes: self.modes,
            wrap_pending: self.wrap_pending,
            main_screen: match self.main_screen {
                Some((g, c)) => Some((g@, c)),
                None => None,
            },
            responses: self.responses@,
            clipboard: strings_view(self.clipboard@),
            titles: strings_view(self.titles@),
            charsets: self.parser.charset_state(),
            fed: self.parser.fed(),
        }
    }
}

impl TerminalState {
    pub open spec fn wf(&self) -> bool {
        self@.well_formed()
    }

    pub fn new(rows: usize, cols: usize) -> (t: TerminalState)
        ensures
            t.wf(),
            t@ == initial_state(rows, cols),
    {
        let grid = Grid::new(rows, cols);
        let t = TerminalState {
            grid,
            cursor: Cursor::default(),
            parser: EscapeParser::new(),
            style: Style::plain(),
            saved_cursor: None,
            scroll_region: None,
            modes: TerminalModes::default(),
            wrap_pending: false,
            main_screen: None,
            responses: Vec::new(),
            clipboard: Vec::new(),
            titles: Vec::new(),
        };
        assert(strings_view(t.clipboard@) =~= Seq::empty());
        assert(strings_view(t.titles@) =~= Seq::empty());
        t
    }

    pub fn rows(&self) -> (r: usize)
        ensures
            r == self@.grid.rows,
    {
        self.grid.rows()
    }

    pub fn cols(&self) -> (c: usize)
        ensures
            c == self@.grid.cols,
    {
        self.grid.cols()
    }

    pub fn scrollback_len(&self) -> (n: usize)
        ensures
            n == self@.grid.scrollback.len(),
    {
        self.grid.scrollback_len()
    }

    fn print(&mut self, ch: char)
        requires
            old(self).wf(),
        ensures
            final(self).wf(),
            final(self)@ == print_effect(old(self)@, ch),
    {
        reveal(print_effect);
        let w = char_width(ch);
        if self.wrap_pending && w > 0 {
            self.grid.newline_in_region(&mut self.cursor, self.scroll_region, self.style);
        }
        let wrapped = self.grid.put_char(&mut self.cursor, ch, self.style);
        if w > 0 {
            self.wrap_pending = wrapped;
        }
    }

    fn newline(&mut self)
        requires
            old(self).wf(),
        ensures
            final(self).wf(),
            final(self)@ == newline_effect(old(self)@),
    {
        reveal(newline_effect);
        self.grid.newline_in_region(&mut self.cursor, self.scroll_region, self.style);
        self.wrap_pending = false;
    }

    fn backspace(&mut self)
        requires
            old(self).wf(),
        ensures
            final(self).wf(),
            final(self)@ == backspace_effect(old(self)@),
    {
        reveal(backspace_effect);
        self.grid.backspace(&mut self.cursor);
        self.wrap_pending = false;
    }

    fn tab(&mut self)
        requires
            old(self).wf(),
        ensures
            final(self).wf(),
            final(self)@ == old(self)@.with_cursor(
                Cursor { col: next_tab_col(old(self)@.cursor.col, old(self)@.grid.cols), ..old(self)@.cursor },
            ),
    {
        let cols = self.grid.cols();
        let base = self.cursor.col - self.cursor.col % 8;
        let target = if cols - 1 - base > 8 { base + 8 } else { cols - 1 };
        self.cursor.col = target;
        self.wrap_pending = false;
    }

    fn clear_line(&mut self, mode: LineClearMode)
        requires
            old(self).wf(),
        ensures
            final(self).wf(),
            final(self)@ == clear_line_effect(old(self)@, mode),
    {
        reveal(clear_line_effect);
        match mode {
            LineClearMode::FromCursor => self.grid.clear_line_from_cursor(self.cursor, self.style),
            LineClearMode::ToCursor => self.grid.clear_line_to_cursor(self.cursor, self.style),
            LineClearMode::Entire => self.grid.clear_entire_line(self.cursor.row, self.style),
        }
        self.wrap_pending = false;
    }

    fn clear_screen(&mut self, mode: ScreenClearMode)
        requires
            old(self).wf(),
        ensures
            final(self).wf(),
            final(self)@ == clear_screen_effect(old(self)@, mode),
    {
        reveal(clear_screen_effect);
        match mode {
            ScreenClearMode::FromCursor => self.grid.clear_screen_from_cursor(self.cursor, self.style),
            ScreenClearMode::ToCursor => self.grid.clear_screen_to_cursor(self.cursor, self.style),
            ScreenClearMode::Entire => self.grid.clear_screen(&mut self.cursor, self.style),
        }
        self.wrap_pending = false;
    }

    fn edit(&mut self, kind: EditKind, n: usize)
        requires
            old(self).wf(),
        ensures
            final(self).wf(),
            final(self)@ == edit_effect(old(self)@, kind, n),
    {
        reveal(edit_effect);
        match kind {
            EditKind::InsertChars => self.grid.insert_blank_chars(self.cursor, n, self.style),
            EditKind::DeleteChars => self.grid.delete_chars(self.cursor, n, self.style),
            EditKind::EraseChars => self.grid.erase_chars(self.cursor, n, self.style),
            EditKind::InsertLines => self.grid.insert_blank_lines(self.cursor, n, self.scroll_region, self.style),
            EditKind::DeleteLines => self.grid.delete_lines(self.cursor, n, self.scroll_region, self.style),
        }
        self.wrap_pending = false;
    }

    fn set_modes(&mut self, modes: TerminalModes)
        requires
            old(self).wf(),
        ensures
            final(self).wf(),
            final(self)@ == old(self)@.with_modes(modes),
    {
        self.modes = modes;
    }

    fn save_cursor(&mut self)
        requires
            old(self).wf(),
        ensures
            final(self).wf(),
            final(self)@ == (TerminalStateView { saved_cursor: Some(old(self)@.cursor), ..old(self)@ }),
    {
        self.saved_cursor = Some(self.cursor);
    }

    fn restore_cursor(&mut self)
        requires
            old(self).wf(),
        ensures
            final(self).wf(),
            final(self)@ == (match old(self)@.saved_cursor {
                Some(c) => old(self)@.with_cursor(old(self)@.grid.clamped(c.row, c.col)),
                None => old(self)@,
            }),
    {
        if let Some(saved) = self.saved_cursor {
            self.grid.move_cursor(&mut self.cursor, saved.row, saved.col);
            self.wrap_pending = false;
        }
    }

    fn set_scroll_region(&mut self, region: Option<(usize, usize)>)
        requires
            old(self).wf(),
        ensures
            final(self).wf(),
            final(self)@ == (TerminalStateView {
                scroll_region: region,
                ..old(self)@.with_cursor(Cursor { row: 0, col: 0 })
            }),
    {
        self.scroll_region = region;
        self.cursor = Cursor::default();
        self.wrap_pending = false;
    }

    fn enter_alternate_screen(&mut self)
        requires
            old(self).wf(),
        ensures
            final(self).wf(),
            final(self)@ == enter_alternate_effect(old(self)@),
    {
        reveal(enter_alternate_effect);
        if self.main_screen.is_none() {
            let mut screen = Grid::new(self.grid.rows(), self.grid.cols());
            std::mem::swap(&mut screen, &mut self.grid);
            self.main_screen = Some((screen, self.cursor));
            self.cursor = Cursor::default();
            self.wrap_pending = false;
        }
    }

    fn exit_alternate_screen(&mut self)
        requires
            old(self).wf(),
        ensures
            final(self).wf(),
            final(self)@ == exit_alternate_effect(old(self)@),
    {
        reveal(exit_alternate_effect);
        if let Some((screen, cursor)) = self.main_screen.take() {
            self.grid = screen;
            self.cursor = cursor;
            self.wrap_pending = false;
        }
    }

    fn reply(&mut self, bytes: &[u8])
        ensures
            final(self)@ == old(self)@.replying(bytes@),
            final(self).wf() == old(self).wf(),
    {
        push_bytes(&mut self.responses, bytes);
    }

    fn report_cursor_position(&mut self)
        requires
            old(self).wf(),
        ensures
            final(self).wf(),
            final(self)@ == old(self)@.replying(cursor_position_reply(old(self)@.cursor)),
    {
        let ghost s0 = self@;
        self.responses.push(0x1b);
        self.responses.push(0x5b);
        push_decimal(&mut self.responses, self.cursor.row + 1);
        self.responses.push(0x3b);
        push_decimal(&mut self.responses, self.cursor.col + 1);
        self.responses.push(0x52);
        assert(self@.responses =~= s0.responses + cursor_position_reply(s0.cursor));
    }

    fn push_clipboard(&mut self, text: String)
        ensures
            final(self)@ == (TerminalStateView { clipboard: old(self)@.clipboard.push(text@), ..old(self)@ }),
            final(self).wf() == old(self).wf(),
    {
        let ghost s0 = self@;
        self.clipboard.push(text);
        assert(strings_view(self.clipboard@) =~= s0.clipboard.push(text@));
    }

    fn push_title(&mut self, text: String)
        ensures
            final(self)@ == (TerminalStateView { titles: old(self)@.titles.push(text@), ..old(self)@ }),
            final(self).wf() == old(self).wf(),
    {
        let ghost s0 = self@;
        self.titles.push(text);
        assert(strings_view(self.titles@) =~= s0.titles.push(text@));
    }

    /// Printing and the C0 cursor controls.
    fn apply_cell_action(&mut self, action: Action)
        requires
            old(self).wf(),
            is_cell_action(action_view(action)),
        ensures
            final(self).wf(),
            final(self)@ == apply_spec(old(self)@, action_view(action)),
    {
        reveal(apply_spec);
        match action {
            ActionOf::Print(ch) => self.print(ch),
            ActionOf::CarriageReturn => {
                self.cursor.col = 0;
                self.wrap_pending = false;
            },
            ActionOf::Newline => self.newline(),
            ActionOf::Backspace => self.backspace(),
            ActionOf::Tab => self.tab(),
            _ => {},
        }
    }

    /// Erasing, and inserting or deleting characters and lines.
    fn apply_edit_action(&mut self, action: Action)
        requires
            old(self).wf(),
            is_edit_action(action_view(action)),
        ensures
            final(self).wf(),
            final(self)@ == apply_spec(old(self)@, action_view(action)),
    {
        reveal(apply_spec);
        match action {
            ActionOf::ClearLine(mode) => self.clear_line(mode),
            ActionOf::ClearScreen(mode) => self.clear_screen(mode),
            ActionOf::InsertBlankChars(n) => self.edit(EditKind::InsertChars, n),
            ActionOf::DeleteChars(n) => self.edit(EditKind::DeleteChars, n),
            ActionOf::EraseChars(n) => self.edit(EditKind::EraseChars, n),
            ActionOf::InsertLines(n) => self.edit(EditKind::InsertLines, n),
            ActionOf::DeleteLines(n) => self.edit(EditKind::DeleteLines, n),
            _ => {},
        }
    }

    /// The saved cursor, the alternate screen and the scroll region.
    fn apply_cursor_action(&mut self, action: Action)
        requires
            old(self).wf(),
            is_cursor_action(action_view(action)),
        ensures
            final(self).wf(),
            final(self)@ == apply_spec(old(self)@, action_view(action)),
    {
        reveal(apply_spec);
        match action {
            ActionOf::SaveCursor => self.save_cursor(),
            ActionOf::RestoreCursor => self.restore_cursor(),
            ActionOf::EnterAlternateScreen => self.enter_alternate_screen(),
            ActionOf::ExitAlternateScreen => self.exit_alternate_screen(),
            ActionOf::SetScrollRegion(region) => self.set_scroll_region(region),
            _ => {},
        }
    }

    /// Cursor motion.
    fn apply_motion_action(&mut self, action: Action)
        requires
            old(self).wf(),
            is_motion_action(action_view(action)),
        ensures
            final(self).wf(),
            final(self)@ == apply_spec(old(self)@, action_view(action)),
    {
        reveal(apply_spec);
        match action {
            ActionOf::CursorPosition { row, col } => {
                self.grid.move_cursor(&mut self.cursor, row, col);
                self.wrap_pending = false;
            },
            ActionOf::CursorUp(n) => {
                self.grid.move_up(&mut self.cursor, n);
                self.wrap_pending = false;
            },
            ActionOf::CursorDown(n) => {
                self.grid.move_down(&mut self.cursor, n);
                self.wrap_pending = false;
            },
            ActionOf::CursorRight(n) => {
                self.grid.move_right(&mut self.cursor, n);
                self.wrap_pending = false;
            },
            ActionOf::CursorLeft(n) => {
                self.grid.move_left(&mut self.cursor, n);
                self.wrap_pending = false;
            },
            ActionOf::CursorColumn(col) => {
                let row = self.cursor.row;
                self.grid.move_cursor(&mut self.cursor, row, col);
                self.wrap_pending = false;
            },
            _ => {},
        }
    }

    /// Terminal modes.
    fn apply_mode_action(&mut self, action: Action)
        requires
            old(self).wf(),
            is_mode_action(action_view(action)),
        ensures
            final(self).wf(),
            final(self)@ == apply_spec(old(self)@, action_view(action)),
    {
        reveal(apply_spec);
        match action {
            ActionOf::SetApplicationCursorKeys(b) => {
                self.set_modes(TerminalModes { application_cursor_keys: b, ..self.modes });
            },
            ActionOf::SetApplicationKeypad(b) => {
                self.set_modes(TerminalModes { application_keypad: b, ..self.modes });
            },
            ActionOf::SetBracketedPaste(b) => {
                self.set_modes(TerminalModes { bracketed_paste: b, ..self.modes });
            },
            ActionOf::SetCursorVisible(b) => {
                self.set_modes(TerminalModes { cursor_visible: b, ..self.modes });
            },
            ActionOf::SetCursorStyle(style) => {
                self.set_modes(TerminalModes { cursor_style: style, ..self.modes });
            },
            _ => {},
        }
    }

    /// Mouse modes, graphic rendition and ignored sequences.
    fn apply_rendition_action(&mut self, action: Action)
        requires
            old(self).wf(),
            is_rendition_action(action_view(action)),
        ensures
            final(self).wf(),
            final(self)@ == apply_spec(old(self)@, action_view(action)),
    {
        reveal(apply_spec);
        match action {
            ActionOf::SetMouseReporting(b) => {
                self.set_modes(TerminalModes { mouse_reporting: b, ..self.modes });
            },
            ActionOf::SetSgrMouse(b) => {
                self.set_modes(TerminalModes { sgr_mouse: b, ..self.modes });
            },
            ActionOf::SetGraphicRendition(numbers) => {
                apply_sgr(&mut self.style, numbers.as_slice());
            },
            ActionOf::Ignore => {},
            _ => {},
        }
    }

    /// Replies to the host, clipboard writes and titles.
    fn apply_reply_action(&mut self, action: Action)
        requires
            old(self).wf(),
            is_reply_action(action_view(action)),
        ensures
            final(self).wf(),
            final(self)@ == apply_spec(old(self)@, action_view(action)),
    {
        reveal(apply_spec);
        match action {
            ActionOf::PrimaryDeviceAttributes => {
                let reply: [u8; 7] = [0x1b, 0x5b, 0x3f, 0x31, 0x3b, 0x32, 0x63];
                assert(reply@ == primary_attributes_reply());
                self.reply(&reply);
            },
            ActionOf::SecondaryDeviceAttributes => {
                let reply: [u8; 10] = [0x1b, 0x5b, 0x3e, 0x31, 0x3b, 0x31, 0x30, 0x3b, 0x30, 0x63];
                assert(reply@ == secondary_attributes_reply());
                self.reply(&reply);
            },
            ActionOf::SetClipboard(text) => self.push_clipboard(text),
            ActionOf::ClipboardQueryDenied(_) => {},
            ActionOf::SetWindowTitle(text) => self.push_title(text),
            ActionOf::DeviceStatusReport => {
                let reply: [u8; 4] = [0x1b, 0x5b, 0x30, 0x6e];
                assert(reply@ == status_ok_reply());
                self.reply(&reply);
            },
            ActionOf::CursorPositionReport => self.report_cursor_position(),
            _ => {},
        }
    }

    /// Applies one action.
    fn apply(&mut self, action: Action)
        requires
            old(self).wf(),
        ensures
            final(self).wf(),
            final(self)@ == apply_spec(old(self)@, action_view(action)),
    {
        if action_is_cell(&action) {
            self.apply_cell_action(action);
        } else if action_is_edit(&action) {
            self.apply_edit_action(action);
        } else if action_is_cursor(&action) {
            self.apply_cursor_action(action);
        } else if action_is_motion(&action) {
            self.apply_motion_action(action);
        } else if action_is_mode(&action) {
            self.apply_mode_action(action);
        } else if action_is_rendition(&action) {
            self.apply_rendition_action(action);
        } else {
            self.apply_reply_action(action);
        }
    }

    /// Feeds output of the program running in the terminal. Escape
    /// sequences may be split across calls.
    pub fn append_bytes(&mut self, bytes: &[u8])
        requires
            old(self).wf(),
        ensures
            final(self).wf(),
            final(self)@ == append_spec(old(self)@, bytes@),
            events_extend(old(self)@.fed, final(self)@.fed),
    {
        let ghost s0 = self@;
        let mut actions = self.parser.advance_bytes(bytes);
        let ghost all = actions_view(actions@);
        let ghost start = self@;
        proof {
            assert(start == (TerminalStateView { charsets: start.charsets, fed: start.fed, ..s0 }));
        }
        let mut i: usize = 0;
        while i < actions.len()
            invariant
                self.wf(),
                i <= actions@.len(),
                all.len() == actions@.len(),
                forall|k: int| i <= k < actions@.len() ==> #[trigger] action_view(actions@[k]) == all[k],
                self@ == apply_all(start, all.take(i as int)),
            decreases actions@.len() - i,
        {
            let mut action = ActionOf::Ignore;
            std::mem::swap(&mut action, &mut actions[i]);
            assert(action_view(action) == all[i as int]);
            self.apply(action);
            assert(all.take(i + 1).drop_last() == all.take(i as int));
            i += 1;
        }
        assert(all.take(i as int) == all);
        proof {
            lemma_apply_all_keeps_fed(start, all);
        }
    }

    /// The screen rows around the cursor, as plain and styled text.
    pub fn snapshot(&self, max_visible_lines: usize) -> (snap: TerminalSnapshot)
        requires
            self.wf(),
        ensures
            is_screen_snapshot(self@, max_visible_lines, snap),
    {
        let rows = self.grid.rows();
        let wanted = if max_visible_lines == 0 { 1 } else { max_visible_lines };
        let visible = if wanted < rows { wanted } else { rows };
        let start = if self.cursor.row < visible { 0 } else { self.cursor.row + 1 - visible };
        let lines = self.grid.visible_lines_from(start, visible);
        let styled_lines = self.grid.visible_styled_lines_from(start, visible);
        let scrollback_len = self.grid.scrollback_len();
        let snap = TerminalSnapshot {
            lines,
            styled_lines,
            cursor: Cursor::new(self.cursor.row - start, self.cursor.col),
            modes: self.modes,
            scrollback_len,
            viewport_start_absolute_row: scrollback_len.saturating_add(start),
        };
        proof {
            let s = self@;
            assert(lines_view(snap.lines@) =~= Seq::new(visible as nat, |k: int| rendered_text(s.grid.lines[start + k])));
            assert(styled_lines_view(snap.styled_lines@) =~= Seq::new(visible as nat, |k: int| styled_text(s.grid.lines[start + k])));
        }
        snap
    }

    /// Rows `[start, end)` of history-then-screen as plain text.
    fn combined_lines(&self, start: usize, end: usize) -> (lines: Vec<String>)
        requires
            self.wf(),
            start <= end <= self@.grid.scrollback.len() + self@.grid.rows,
        ensures
            lines_view(lines@) == Seq::new((end - start) as nat, |k: int| rendered_text(combined_row(self@.grid, start + k))),
    {
        let history = self.grid.scrollback_len();
        let history_end = if end < history { end } else { history };
        let mut lines: Vec<String> = Vec::new();
        if start < history_end {
            lines = self.grid.scrollback_lines(history - history_end, history_end - start);
        }
        let ghost head = lines@;
        let screen_start = if start > history { start } else { history };
        if screen_start < end {
            let mut screen = self.grid.visible_lines_from(screen_start - history, end - screen_start);
            lines.append(&mut screen);
        }
        proof {
            let g = self@.grid;
            assert forall|k: int| 0 <= k < end - start implies #[trigger] lines@[k]@ == rendered_text(combined_row(g, start + k)) by {
                if start + k < history {
                    assert(lines@[k] == head[k]);
                }
            }
            assert(lines_view(lines@) =~= Seq::new((end - start) as nat, |k: int| rendered_text(combined_row(g, start + k))));
        }
        lines
    }

    /// Rows `[start, end)` of history-then-screen as styled text.
    fn combined_styled_lines(&self, start: usize, end: usize) -> (lines: Vec<StyledLine>)
        requires
            self.wf(),
            start <= end <= self@.grid.scrollback.len() + self@.grid.rows,
        ensures
            styled_lines_view(lines@) == Seq::new((end - start) as nat, |k: int| styled_text(combined_row(self@.grid, start + k))),
    {
        let history = self.grid.scrollback_len();
        let history_end = if end < history { end } else { history };
        let mut lines: Vec<StyledLine> = Vec::new();
        if start < history_end {
            lines = self.grid.scrollback_styled_lines(history - history_end, history_end - start);
        }
        let ghost head = lines@;
        let screen_start = if start > history { start } else { history };
        if screen_start < end {
            let mut screen = self.grid.visible_styled_lines_from(screen_start - history, end - screen_start);
            lines.append(&mut screen);
        }
        proof {
            let g = self@.grid;
            assert forall|k: int| 0 <= k < end - start implies #[trigger] styled_line_view(lines@[k]) == styled_text(combined_row(g, start + k)) by {
                if start + k < history {
                    assert(lines@[k] == head[k]);
                }
            }
            assert(styled_lines_view(lines@) =~= Seq::new((end - start) as nat, |k: int| styled_text(combined_row(g, start + k))));
        }
        lines
    }

    /// A window over the history followed by the screen, scrolled
    /// `offset_from_bottom` rows up from the bottom.
    pub fn combined_snapshot(&self, offset_from_bottom: usize, max_visible_lines: usize) -> (snap: TerminalSnapshot)
        requires
            self.wf(),
        ensures
            is_combined_snapshot(self@, offset_from_bottom, max_visible_lines, snap),
    {
        let history = self.grid.scrollback_len();
        let rows = self.grid.rows();
        let total = history.saturating_add(rows);
        let wanted = if max_visible_lines == 0 { 1 } else { max_visible_lines };
        let visible = if wanted < total { wanted } else { total };
        let offset = if offset_from_bottom < history { offset_from_bottom } else { history };
        let end = total - offset;
        let start = if end > visible { end - visible } else { 0 };
        let lines = self.combined_lines(start, end);
        let styled_lines = self.combined_styled_lines(start, end);
        let cursor_abs = history.saturating_add(self.cursor.row);
        let snap = TerminalSnapshot {
            lines,
            styled_lines,
            cursor: Cursor::new(if cursor_abs >= start { cursor_abs - start } else { 0 }, self.cursor.col),
            modes: self.modes,
            scrollback_len: history,
            viewport_start_absolute_row: start,
        };
        snap
    }

    /// Resizes both screens; the program is told separately.
    pub fn resize(&mut self, rows: usize, cols: usize)
        requires
            old(self).wf(),
        ensures
            final(self).wf(),
            final(self)@ == resize_effect(old(self)@, rows, cols),
    {
        self.grid.resize(rows, cols, &mut self.cursor);
        if let Some((mut screen, mut cursor)) = self.main_screen.take() {
            screen.resize(rows, cols, &mut cursor);
            self.main_screen = Some((screen, cursor));
        }
        self.scroll_region = None;
        self.wrap_pending = false;
    }

    /// The replies to the host that are waiting, oldest first; they are handed over once.
    pub fn take_pending_responses(&mut self) -> (bytes: Vec<u8>)
        ensures
            bytes@ == old(self)@.responses,
            final(self)@ == (TerminalStateView { responses: Seq::empty(), ..old(self)@ }),
            final(self).wf() == old(self).wf(),
    {
        let mut bytes: Vec<u8> = Vec::new();
        std::mem::swap(&mut bytes, &mut self.responses);
        bytes
    }

    /// The clipboard writes that are waiting, oldest first; they are handed over once.
    pub fn take_pending_clipboard_writes(&mut self) -> (texts: Vec<String>)
        ensures
            strings_view(texts@) == old(self)@.clipboard,
            final(self)@ == (TerminalStateView { clipboard: Seq::empty(), ..old(self)@ }),
            final(self).wf() == old(self).wf(),
    {
        let mut texts: Vec<String> = Vec::new();
        std::mem::swap(&mut texts, &mut self.clipboard);
        assert(strings_view(self.clipboard@) =~= Seq::empty());
        texts
    }

    /// The window titles that are waiting, oldest first; they are handed over once.
    pub fn take_pending_title_writes(&mut self) -> (texts: Vec<String>)
        ensures
            strings_view(texts@) == old(self)@.titles,
            final(self)@ == (TerminalStateView { titles: Seq::empty(), ..old(self)@ }),
            final(self).wf() == old(self).wf(),
    {
        let mut texts: Vec<String> = Vec::new();
        std::mem::swap(&mut texts, &mut self.titles);
        assert(strings_view(self.titles@) =~= Seq::empty());
        texts
    }
}

} // verus!
