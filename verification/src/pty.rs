use vstd::prelude::*;

use crate::text::{chars_to_string, str_chars};

verus! {

/// Rows of the window size a new pseudo-terminal starts with.
pub const DEFAULT_PTY_ROWS: u16 = 32;
/// Columns of the window size a new pseudo-terminal starts with.
pub const DEFAULT_PTY_COLS: u16 = 100;
/// Every this many reads the output reader reports its progress.
pub const PTY_PROGRESS_LOG_READ_INTERVAL: u64 = 4096;

/// A size in cells as the kernel's window size holds it: clamped to `u16`.
pub open spec fn clamp_u16(n: usize) -> u16 {
    if n <= u16::MAX { n as u16 } else { u16::MAX }
}

/// The window size to tell the pseudo-terminal, each dimension clamped to 65535.
pub fn pty_window_size(rows: usize, cols: usize) -> (size: (u16, u16))
    ensures
        size == (clamp_u16(rows), clamp_u16(cols)),
{
    let r = if rows <= 65535 { rows as u16 } else { 65535 };
    let c = if cols <= 65535 { cols as u16 } else { 65535 };
    (r, c)
}

/// The part of a path after its last `/` (all of it when there is none).
pub open spec fn last_segment(path: Seq<char>) -> Seq<char>
    decreases path.len(),
{
    if path.len() == 0 {
        path
    } else if path.last() == '/' {
        Seq::empty()
    } else {
        last_segment(path.drop_last()).push(path.last())
    }
}

/// The name a login shell is started under: its file name after a `-`.
pub fn login_shell_argv0(shell: &str) -> (name: String)
    ensures
        name@ == seq!['-'] + last_segment(shell@),
{
    let chars = str_chars(shell);
    let mut start: usize = 0;
    let mut i: usize = 0;
    while i < chars.len()
        invariant
            i <= chars@.len(),
            start <= i,
            chars@ == shell@,
            last_segment(chars@.take(i as int)) == chars@.subrange(start as int, i as int),
        decreases chars@.len() - i,
    {
        assert(chars@.take(i + 1).drop_last() == chars@.take(i as int));
        if chars[i] == '/' {
            start = i + 1;
            assert(chars@.subrange(start as int, i + 1) =~= Seq::<char>::empty());
        } else {
            assert(chars@.subrange(start as int, i + 1) =~= chars@.subrange(start as int, i as int).push(chars@[i as int]));
        }
        i += 1;
    }
    assert(chars@.take(i as int) == chars@);
    let mut out: Vec<char> = Vec::new();
    out.push('-');
    let mut k = start;
    while k < chars.len()
        invariant
            start <= k <= chars@.len(),
            out@ == seq!['-'] + chars@.subrange(start as int, k as int),
        decreases chars@.len() - k,
    {
        out.push(chars[k]);
        k += 1;
        assert(out@ =~= seq!['-'] + chars@.subrange(start as int, k as int));
    }
    chars_to_string(out.as_slice())
}

/// Whether the output reader reports a read: the first one, then every
/// `PTY_PROGRESS_LOG_READ_INTERVAL`-th.
pub fn should_log_read(read_events: u64) -> (first_or_progress: (bool, bool))
    ensures
        first_or_progress == (read_events == 1, read_events != 1 && read_events % PTY_PROGRESS_LOG_READ_INTERVAL == 0),
{
    (read_events == 1, read_events != 1 && read_events % PTY_PROGRESS_LOG_READ_INTERVAL == 0)
}

} // verus!
