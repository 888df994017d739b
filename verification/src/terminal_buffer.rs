use vstd::prelude::*;

use crate::parser::events_extend;
use crate::state::{
    append_spec, strings_view, initial_state, is_combined_snapshot, is_screen_snapshot, resize_effect, TerminalSnapshot,
    TerminalState, TerminalStateView,
};

verus! {

/// Rows of a new buffer's screen.
pub const DEFAULT_ROWS: usize = 32;
/// Columns of a new buffer's screen.
pub const DEFAULT_COLS: usize = 100;

/// The terminal behind a window: its state, fed with the program's output.
pub struct TerminalBuffer {
    terminal: TerminalState,
}

impl View for TerminalBuffer {
    type V = TerminalStateView;

    closed spec fn view(&self) -> TerminalStateView {
        self.terminal@
    }
}

impl TerminalBuffer {
    /// The buffer's invariant: that of its terminal.
    pub closed spec fn wf(&self) -> bool {
        self.terminal.wf()
    }

    /// A buffer with a fresh screen of the default size. The history bound is
    /// the grid's own, so `_max_lines` is not used.
    pub fn new(_max_lines: usize) -> (b: TerminalBuffer)
        ensures
            b.wf(),
            b@ == initial_state(DEFAULT_ROWS, DEFAULT_COLS),
    {
        TerminalBuffer { terminal: TerminalState::new(DEFAULT_ROWS, DEFAULT_COLS) }
    }

    /// Feeds the program's output and hands back the replies it asked for.
    pub fn append_bytes(&mut self, bytes: &[u8]) -> (replies: Vec<u8>)
        requires
            old(self).wf(),
        ensures
            final(self).wf(),
            replies@ == append_spec(old(self)@, bytes@).responses,
            final(self)@ == (TerminalStateView { responses: Seq::empty(), ..append_spec(old(self)@, bytes@) }),
            events_extend(old(self)@.fed, final(self)@.fed),
    {
        self.terminal.append_bytes(bytes);
        self.terminal.take_pending_responses()
    }

    /// The clipboard writes waiting, oldest first; they are handed over once.
    pub fn take_pending_clipboard_writes(&mut self) -> (texts: Vec<String>)
        ensures
            strings_view(texts@) == old(self)@.clipboard,
            final(self)@ == (TerminalStateView { clipboard: Seq::empty(), ..old(self)@ }),
            final(self).wf() == old(self).wf(),
    {
        self.terminal.take_pending_clipboard_writes()
    }

    /// The window titles waiting, oldest first; they are handed over once.
    pub fn take_pending_title_writes(&mut self) -> (texts: Vec<String>)
        ensures
            strings_view(texts@) == old(self)@.titles,
            final(self)@ == (TerminalStateView { titles: Seq::empty(), ..old(self)@ }),
            final(self).wf() == old(self).wf(),
    {
        self.terminal.take_pending_title_writes()
    }

    /// The screen rows around the cursor.
    pub fn snapshot(&self, max_visible_lines: usize) -> (snap: TerminalSnapshot)
        requires
            self.wf(),
        ensures
            is_screen_snapshot(self@, max_visible_lines, snap),
    {
        self.terminal.snapshot(max_visible_lines)
    }

    /// A window over the history and the screen, `offset_from_bottom` rows up.
    pub fn combined_snapshot(&self, offset_from_bottom: usize, max_visible_lines: usize) -> (snap: TerminalSnapshot)
        requires
            self.wf(),
        ensures
            is_combined_snapshot(self@, offset_from_bottom, max_visible_lines, snap),
    {
        self.terminal.combined_snapshot(offset_from_bottom, max_visible_lines)
    }

    /// The number of rows in the history.
    pub fn scrollback_len(&self) -> (n: usize)
        ensures
            n == self@.grid.scrollback.len(),
    {
        self.terminal.scrollback_len()
    }

    /// Resizes the screen.
    pub fn resize(&mut self, rows: usize, cols: usize)
        requires
            old(self).wf(),
        ensures
            final(self).wf(),
            final(self)@ == resize_effect(old(self)@, rows, cols),
    {
        self.terminal.resize(rows, cols);
    }
}

} // verus!
