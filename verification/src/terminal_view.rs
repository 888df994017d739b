use vstd::prelude::*;

use vstd::string::StringSliceAdditionalSpecFns;

use crate::input::{
    encode_key_event, is_command_key_parts, is_command_shortcut, key_event_bytes, should_use_text_input_parts,
    uses_text_input, KeyModifiers, KEY_C, KEY_N, KEY_PAGE_DOWN, KEY_PAGE_UP, KEY_Q, KEY_V, KEY_W,
};
use crate::mouse::{legacy_mouse_report, legacy_mouse_report_spec, sgr_mouse_report, sgr_mouse_report_spec};
use crate::selection::GridPoint;
use crate::state::{combined_text, is_combined_snapshot, resize_effect, TerminalModes, TerminalSnapshot};
use crate::terminal_buffer::TerminalBuffer;
use crate::text::str_chars;

verus! {

/// Whether every character is an ASCII decimal digit.
pub open spec fn all_digits(s: Seq<char>) -> bool {
    forall|i: int| 0 <= i < s.len() ==> '0' <= #[trigger] s[i] <= '9'
}

/// The value of a string of decimal digits.
pub open spec fn digits_value(s: Seq<char>) -> nat
    decreases s.len(),
{
    if s.len() == 0 {
        0
    } else {
        digits_value(s.drop_last()) * 10 + (s.last() as nat - '0' as nat) as nat
    }
}

/// An unsigned decimal number as `usize::from_str` reads it: an optional `+`,
/// then one or more digits whose value fits in a `usize`.
pub open spec fn parse_usize_spec(s: Seq<char>) -> Option<usize> {
    let digits = if s.len() > 0 && s[0] == '+' { s.drop_first() } else { s };
    if digits.len() > 0 && all_digits(digits) && digits_value(digits) <= usize::MAX {
        Some(digits_value(digits) as usize)
    } else {
        None
    }
}

pub(crate) proof fn lemma_digits_value_grows(s: Seq<char>, n: int)
    requires
        0 <= n <= s.len(),
        all_digits(s),
    ensures
        digits_value(s.take(n)) <= digits_value(s),
    decreases s.len() - n,
{
    if n < s.len() {
        lemma_digits_value_grows(s, n + 1);
        assert(s.take(n + 1).drop_last() == s.take(n));
    } else {
        assert(s.take(n) == s);
    }
}

fn parse_usize(chars: &[char], from: usize, to: usize) -> (r: Option<usize>)
    requires
        from <= to <= chars@.len(),
    ensures
        r == parse_usize_spec(chars@.subrange(from as int, to as int)),
{
    let ghost s = chars@.subrange(from as int, to as int);
    let mut i = from;
    if i < to && chars[i] == '+' {
        i = i + 1;
    }
    let ghost digits = chars@.subrange(i as int, to as int);
    proof {
        if s.len() > 0 && s[0] == '+' {
            assert(digits == s.drop_first());
        } else {
            assert(digits == s);
        }
    }
    if i == to {
        return None;
    }
    let mut value: usize = 0;
    let start = i;
    while i < to
        invariant
            start <= i <= to <= chars@.len(),
            digits == chars@.subrange(start as int, to as int),
            digits == (if s.len() > 0 && s[0] == '+' { s.drop_first() } else { s }),
            digits.len() > 0,
            s == chars@.subrange(from as int, to as int),
            all_digits(digits.take(i - start)),
            value == digits_value(digits.take(i - start)),
        decreases to - i,
    {
        let c = chars[i];
        if !('0' <= c && c <= '9') {
            assert(digits[i - start] == c);
            return None;
        }
        let d = (c as u32 - '0' as u32) as usize;
        assert(digits.take(i - start + 1).drop_last() == digits.take(i - start));
        assert(digits.take(i - start + 1).last() == c);
        let next = match value.checked_mul(10) {
            Some(v) => v.checked_add(d),
            None => None,
        };
        match next {
            Some(v) => {
                value = v;
            },
            None => {
                proof {
                    if all_digits(digits) {
                        lemma_digits_value_grows(digits, i - start + 1);
                    }
                }
                return None;
            },
        }
        i = i + 1;
    }
    assert(digits.take(i - start) == digits);
    Some(value)
}

/// The index of the first `x`, if there is one.
pub open spec fn position_of_x(s: Seq<char>) -> Option<int>
    decreases s.len(),
{
    if s.len() == 0 {
        None
    } else {
        match position_of_x(s.drop_last()) {
            Some(i) => Some(i),
            None => if s.last() == 'x' {
                Some(s.len() - 1)
            } else {
                None
            },
        }
    }
}

/// A terminal size written `ROWSxCOLS`: two numbers as `usize::from_str` reads
/// them on either side of the first `x`, neither of them zero.
pub open spec fn rows_by_cols_spec(s: Seq<char>) -> Option<(usize, usize)> {
    match position_of_x(s) {
        None => None,
        Some(i) => match (parse_usize_spec(s.take(i)), parse_usize_spec(s.skip(i + 1))) {
            (Some(rows), Some(cols)) => if rows == 0 || cols == 0 {
                None
            } else {
                Some((rows, cols))
            },
            _ => None,
        },
    }
}

proof fn lemma_position_of_x_kept(s: Seq<char>, k: int, m: int)
    requires
        0 <= k <= m <= s.len(),
        position_of_x(s.take(k)) is Some,
    ensures
        position_of_x(s.take(m)) == position_of_x(s.take(k)),
    decreases m - k,
{
    if m > k {
        lemma_position_of_x_kept(s, k, m - 1);
        assert(s.take(m).drop_last() == s.take(m - 1));
    }
}

/// The decimal digits of a number, as characters.
pub open spec fn decimal_chars(n: nat) -> Seq<char>
    decreases n,
{
    if n < 10 {
        seq![(('0' as nat) + n) as char]
    } else {
        decimal_chars(n / 10).push((('0' as nat) + n % 10) as char)
    }
}

proof fn lemma_decimal_chars(n: nat)
    ensures
        decimal_chars(n).len() >= 1,
        all_digits(decimal_chars(n)),
        digits_value(decimal_chars(n)) == n,
        position_of_x(decimal_chars(n)) is None,
    decreases n,
{
    let d = decimal_chars(n);
    if n < 10 {
        assert(d.drop_last() =~= Seq::<char>::empty());
        assert(position_of_x(d.drop_last()) is None);
        assert(d.last() as nat == 48 + n);
        assert('0' as nat == 48);
        assert(digits_value(d.drop_last()) == 0);
        assert(digits_value(d) == digits_value(d.drop_last()) * 10 + (d.last() as nat - '0' as nat) as nat);
    } else {
        lemma_decimal_chars(n / 10);
        assert(d.drop_last() == decimal_chars(n / 10));
        assert(n == (n / 10) * 10 + n % 10);
        assert(d.last() as nat == 48 + n % 10);
        assert('0' as nat == 48);
        assert(digits_value(d) == digits_value(d.drop_last()) * 10 + (d.last() as nat - '0' as nat) as nat);
    }
}

/// Writing a size as `ROWSxCOLS` and reading it back gives the same size.
pub proof fn rows_by_cols_round_trip(rows: usize, cols: usize)
    requires
        rows > 0,
        cols > 0,
    ensures
        rows_by_cols_spec(decimal_chars(rows as nat).push('x') + decimal_chars(cols as nat)) == Some((rows, cols)),
{
    let a = decimal_chars(rows as nat);
    let b = decimal_chars(cols as nat);
    let s = a.push('x') + b;
    lemma_decimal_chars(rows as nat);
    lemma_decimal_chars(cols as nat);
    assert(s.take(a.len() as int + 1) == a.push('x'));
    assert(a.push('x').drop_last() == a);
    assert(position_of_x(a.push('x')) == Some(a.len() as int));
    lemma_position_of_x_kept(s, a.len() as int + 1, s.len() as int);
    assert(s.take(s.len() as int) == s);
    assert(s.take(a.len() as int) == a);
    assert(s.skip(a.len() as int + 1) == b);
    assert('0' <= a[0] <= '9');
    assert('0' <= b[0] <= '9');
}

/// Reads a terminal size written `ROWSxCOLS`, such as `24x80`.
pub fn parse_rows_by_cols(value: &str) -> (r: Option<(usize, usize)>)
    ensures
        r == rows_by_cols_spec(value@),
{
    let chars = str_chars(value);
    let mut i: usize = 0;
    while i < chars.len()
        invariant
            i <= chars@.len(),
            chars@ == value@,
            position_of_x(chars@.take(i as int)) is None,
        ensures
            i < chars@.len() ==> chars@[i as int] == 'x',
        decreases chars@.len() - i,
    {
        assert(chars@.take(i + 1).drop_last() == chars@.take(i as int));
        if chars[i] == 'x' {
            break;
        }
        i += 1;
    }
    if i == chars.len() {
        assert(chars@.take(i as int) == chars@);
        return None;
    }
    proof {
        assert(chars@.take(i + 1).drop_last() == chars@.take(i as int));
        assert(position_of_x(chars@.take(i + 1)) == Some(i as int));
        lemma_position_of_x_kept(chars@, i + 1, chars@.len() as int);
        assert(chars@.take(chars@.len() as int) == chars@);
        assert(chars@.subrange(0, i as int) == chars@.take(i as int));
        assert(chars@.subrange(i + 1, chars@.len() as int) == chars@.skip(i + 1));
    }
    let rows = match parse_usize(chars.as_slice(), 0, i) {
        Some(n) => n,
        None => return None,
    };
    let cols = match parse_usize(chars.as_slice(), i + 1, chars.len()) {
        Some(n) => n,
        None => return None,
    };
    if rows == 0 || cols == 0 {
        return None;
    }
    Some((rows, cols))
}

/// Whether `needle` occurs in `hay` as a run of consecutive characters.
pub open spec fn contains_seq(hay: Seq<char>, needle: Seq<char>) -> bool {
    exists|i: int| 0 <= i && i + needle.len() <= hay.len() && #[trigger] hay.subrange(i, i + needle.len()) == needle
}

/// Whether `needle` occurs in `hay`.
pub fn contains_chars(hay: &[char], needle: &[char]) -> (b: bool)
    ensures
        b == contains_seq(hay@, needle@),
{
    if needle.len() > hay.len() {
        return false;
    }
    let hay_len = hay.len();
    let limit = hay_len - needle.len();
    let mut i: usize = 0;
    loop
        invariant
            hay_len == hay@.len(),
            i <= limit,
            limit == hay@.len() - needle@.len(),
            forall|k: int| 0 <= k < i ==> #[trigger] hay@.subrange(k, k + needle@.len()) != needle@,
        ensures
            forall|k: int| 0 <= k <= limit ==> #[trigger] hay@.subrange(k, k + needle@.len()) != needle@,
        decreases limit - i,
    {
        let mut j: usize = 0;
        let mut same = true;
        assert(hay@.subrange(i as int, i as int) =~= needle@.take(0));
        while j < needle.len()
            invariant
                hay_len == hay@.len(),
                i + needle@.len() <= hay@.len(),
                j <= needle@.len(),
                same == (hay@.subrange(i as int, i + j) == needle@.take(j as int)),
            decreases needle@.len() - j,
        {
            let equal_here = hay[i + j] == needle[j];
            proof {
                let a = hay@.subrange(i as int, i + j);
                let b = needle@.take(j as int);
                assert(hay@.subrange(i as int, i + j + 1) =~= a.push(hay@[i + j]));
                assert(needle@.take(j + 1) =~= b.push(needle@[j as int]));
                if a.push(hay@[i + j]) == b.push(needle@[j as int]) {
                    assert(a =~= a.push(hay@[i + j]).drop_last());
                    assert(b =~= b.push(needle@[j as int]).drop_last());
                    assert(a.push(hay@[i + j])[j as int] == hay@[i + j]);
                    assert(b.push(needle@[j as int])[j as int] == needle@[j as int]);
                }
            }
            same = same && equal_here;
            j += 1;
        }
        assert(needle@.take(needle@.len() as int) =~= needle@);
        if same {
            assert(hay@.subrange(i as int, i + needle@.len()) == needle@);
            return true;
        }
        if i == limit {
            break;
        }
        i += 1;
    }
    false
}

/// Whether some line contains `needle`.
pub open spec fn any_line_contains(lines: Seq<Seq<char>>, needle: Seq<char>) -> bool {
    exists|k: int| 0 <= k < lines.len() && contains_seq(#[trigger] lines[k], needle)
}

/// The scrollback offset after scrolling `delta` rows (towards older rows
/// when positive): up to the length of the history, down to the bottom.
pub open spec fn scrolled_offset(current: usize, delta: isize, history: nat) -> usize {
    if delta > 0 {
        let up: int = if current + delta <= usize::MAX { current + delta } else { usize::MAX as int };
        (if up <= history { up } else { history as int }) as usize
    } else {
        (if current + delta >= 0 { current + delta } else { 0 }) as usize
    }
}

/// Scrolling forward one page: minus the page height, the height taken as
/// an `isize` (negation wrapping at the least `isize`).
pub open spec fn page_down_delta(rows: usize) -> isize {
    let up = at_least_one(rows) as isize;
    if up == isize::MIN {
        isize::MIN
    } else {
        (-up) as isize
    }
}

/// One row at least.
pub open spec fn at_least_one(n: usize) -> usize {
    if n == 0 { 1 } else { n }
}

/// What a terminal window keeps besides the terminal itself: its size in
/// cells, how far it is scrolled back, and whether text input has been seen.
pub struct TerminalView {
    rows: usize,
    cols: usize,
    scrollback_offset: usize,
    logged_first_key_input: bool,
}

impl TerminalView {
    /// Rows of the window, in cells.
    pub closed spec fn rows_spec(&self) -> usize {
        self.rows
    }

    /// Columns of the window, in cells.
    pub closed spec fn cols_spec(&self) -> usize {
        self.cols
    }

    /// Rows scrolled back from the bottom.
    pub closed spec fn offset_spec(&self) -> usize {
        self.scrollback_offset
    }

    /// Whether text input has been seen.
    pub closed spec fn seen_input(&self) -> bool {
        self.logged_first_key_input
    }

    /// A window of `rows` by `cols` cells, at the bottom, before any input.
    pub fn new(rows: usize, cols: usize) -> (v: TerminalView)
        ensures
            v.rows_spec() == rows,
            v.cols_spec() == cols,
            v.offset_spec() == 0,
            !v.seen_input(),
    {
        TerminalView {
            rows,
            cols,
            scrollback_offset: 0,
            logged_first_key_input: false,
        }
    }

    /// Rows of the window.
    pub fn rows(&self) -> (r: usize)
        ensures
            r == self.rows_spec(),
    {
        self.rows
    }

    /// Columns of the window.
    pub fn cols(&self) -> (c: usize)
        ensures
            c == self.cols_spec(),
    {
        self.cols
    }

    /// Rows scrolled back from the bottom.
    pub fn scrollback_offset(&self) -> (o: usize)
        ensures
            o == self.offset_spec(),
    {
        self.scrollback_offset
    }

    /// Whether any line of the whole history and screen contains `needle`.
    pub fn snapshot_contains_text(buffer: &TerminalBuffer, needle: &str) -> (b: bool)
        requires
            buffer.wf(),
        ensures
            b == any_line_contains(combined_text(buffer@, 0, usize::MAX), needle@),
    {
        let snapshot = buffer.combined_snapshot(0, usize::MAX);
        let needle_chars = str_chars(needle);
        let ghost lines = combined_text(buffer@, 0, usize::MAX);
        let mut k: usize = 0;
        while k < snapshot.lines.len()
            invariant
                k <= snapshot.lines@.len(),
                lines == combined_text(buffer@, 0, usize::MAX),
                lines.len() == snapshot.lines@.len(),
                forall|j: int| 0 <= j < snapshot.lines@.len() ==> #[trigger] snapshot.lines@[j]@ == lines[j],
                needle_chars@ == needle@,
                forall|j: int| 0 <= j < k ==> !contains_seq(#[trigger] lines[j], needle@),
            decreases snapshot.lines@.len() - k,
        {
            let chars = str_chars(snapshot.lines[k].as_str());
            assert(chars@ == lines[k as int]);
            if contains_chars(chars.as_slice(), needle_chars.as_slice()) {
                assert(contains_seq(lines[k as int], needle@));
                assert(any_line_contains(lines, needle@));
                return true;
            }
            k += 1;
        }
        false
    }

    /// The bytes to send for typed text, and whether this is the first text
    /// the window has seen (which the front end reports once).
    pub fn write_text_to_pty(&mut self, text: &str) -> (r: (Vec<u8>, bool))
        ensures
            r.0@ == text.spec_bytes(),
            r.1 == !old(self).seen_input(),
            final(self).seen_input(),
            final(self).rows_spec() == old(self).rows_spec(),
            final(self).cols_spec() == old(self).cols_spec(),
            final(self).offset_spec() == old(self).offset_spec(),
    {
        let first = self.mark_input_seen();
        (vstd::slice::slice_to_vec(text.as_bytes()), first)
    }

    /// Notes that input was typed; the result says whether it is the first
    /// (which the front end reports once).
    pub fn mark_input_seen(&mut self) -> (first: bool)
        ensures
            first == !old(self).seen_input(),
            final(self).seen_input(),
            final(self).rows_spec() == old(self).rows_spec(),
            final(self).cols_spec() == old(self).cols_spec(),
            final(self).offset_spec() == old(self).offset_spec(),
    {
        let first = !self.logged_first_key_input;
        self.logged_first_key_input = true;
        first
    }

    /// Goes back to the bottom, as typing and pasting do.
    pub fn scroll_to_bottom(&mut self)
        ensures
            final(self).offset_spec() == 0,
            final(self).rows_spec() == old(self).rows_spec(),
            final(self).cols_spec() == old(self).cols_spec(),
            final(self).seen_input() == old(self).seen_input(),
    {
        self.scrollback_offset = 0;
    }

    /// What the window shows: `rows` rows ending the current scrollback offset
    /// above the bottom.
    pub fn current_snapshot(&self, buffer: &TerminalBuffer, rows: usize) -> (snap: TerminalSnapshot)
        requires
            buffer.wf(),
        ensures
            is_combined_snapshot(buffer@, self.offset_spec(), rows, snap),
    {
        buffer.combined_snapshot(self.scrollback_offset, rows)
    }

    /// The whole history and screen, as one snapshot.
    pub fn full_snapshot(&self, buffer: &TerminalBuffer) -> (snap: TerminalSnapshot)
        requires
            buffer.wf(),
        ensures
            is_combined_snapshot(buffer@, 0, usize::MAX, snap),
    {
        buffer.combined_snapshot(0, usize::MAX)
    }

    /// The terminal's current modes.
    pub fn current_modes(&self, buffer: &TerminalBuffer) -> (m: TerminalModes)
        requires
            buffer.wf(),
        ensures
            m == buffer@.modes,
    {
        let rows = if self.rows == 0 { 1 } else { self.rows };
        buffer.snapshot(rows).modes
    }

    /// Resizes the terminal when the window's size in cells changed; the
    /// result says whether it did (the program is then told by the front end).
    pub fn apply_resize_if_needed(&mut self, buffer: &mut TerminalBuffer, rows: usize, cols: usize) -> (changed: bool)
        requires
            old(buffer).wf(),
        ensures
            final(buffer).wf(),
            changed == !(old(self).rows_spec() == rows && old(self).cols_spec() == cols),
            changed ==> final(buffer)@ == resize_effect(old(buffer)@, rows, cols),
            !changed ==> final(buffer)@ == old(buffer)@,
            final(self).rows_spec() == rows,
            final(self).cols_spec() == cols,
            final(self).offset_spec() == old(self).offset_spec(),
            final(self).seen_input() == old(self).seen_input(),
    {
        if self.rows == rows && self.cols == cols {
            return false;
        }
        buffer.resize(rows, cols);
        self.rows = rows;
        self.cols = cols;
        true
    }

    /// Scrolls back one window height.
    pub fn scroll_page_up(&mut self, buffer: &TerminalBuffer)
        ensures
            final(self).offset_spec() == scrolled_offset(
                old(self).offset_spec(),
                at_least_one(old(self).rows_spec()) as isize,
                buffer@.grid.scrollback.len(),
            ),
            final(self).rows_spec() == old(self).rows_spec(),
            final(self).cols_spec() == old(self).cols_spec(),
            final(self).seen_input() == old(self).seen_input(),
    {
        let rows = if self.rows == 0 { 1 } else { self.rows };
        self.adjust_scrollback(buffer, rows as isize);
    }

    /// Scrolls forward one window height.
    pub fn scroll_page_down(&mut self, buffer: &TerminalBuffer)
        ensures
            final(self).offset_spec() == scrolled_offset(
                old(self).offset_spec(),
                page_down_delta(old(self).rows_spec()),
                buffer@.grid.scrollback.len(),
            ),
            final(self).rows_spec() == old(self).rows_spec(),
            final(self).cols_spec() == old(self).cols_spec(),
            final(self).seen_input() == old(self).seen_input(),
    {
        let rows = if self.rows == 0 { 1 } else { self.rows };
        let up = rows as isize;
        let delta: isize = if up == isize::MIN { isize::MIN } else { -up };
        self.adjust_scrollback(buffer, delta);
    }

    /// Scrolls `delta_rows` rows back (positive) or forward (negative).
    pub fn adjust_scrollback(&mut self, buffer: &TerminalBuffer, delta_rows: isize)
        ensures
            final(self).offset_spec() == scrolled_offset(old(self).offset_spec(), delta_rows, buffer@.grid.scrollback.len()),
            final(self).rows_spec() == old(self).rows_spec(),
            final(self).cols_spec() == old(self).cols_spec(),
            final(self).seen_input() == old(self).seen_input(),
    {
        let max_offset = buffer.scrollback_len();
        let current = self.scrollback_offset;
        let next = if delta_rows > 0 {
            let up = current.saturating_add(delta_rows as usize);
            if up < max_offset { up } else { max_offset }
        } else if delta_rows == 0 {
            current
        } else {
            let below: isize = -(delta_rows + 1);
            proof {
                broadcast use vstd::layout::layout_of_primitives;
                vstd::layout::unsigned_int_max_values();
                vstd::layout::signed_int_min_max_values();
                assert(vstd::layout::size_of::<usize>() == vstd::layout::size_of::<isize>());
            }
            let magnitude: usize = below as usize + 1;
            current.saturating_sub(magnitude)
        };
        self.scrollback_offset = next;
    }
}

/// What a key press in a terminal window leads to.
#[derive(Clone, Debug, PartialEq, Eq)]
pub enum KeyAction {
    /// Command-W: close the window.
    CloseWindow,
    /// Command-Q: quit.
    Quit,
    /// Command-N: open a new window.
    NewWindow,
    /// Command-C: copy the selection.
    Copy,
    /// Command-V: paste the clipboard.
    Paste,
    /// Page Up: scroll back one page.
    PageUp,
    /// Page Down: scroll forward one page.
    PageDown,
    /// Hand the event to the input method, which delivers text.
    TextInput,
    /// Send these bytes to the program.
    Send(Vec<u8>),
    /// Nothing to do.
    Ignore,
}

/// The order in which a window looks at a key press: its own Command
/// shortcuts, then paging, then text input, then the bytes the key sends
/// (nothing when the event carries no characters or the key sends nothing).
pub open spec fn key_action_spec(key_code: u16, flags: KeyModifiers, characters: Option<&str>, a: KeyAction) -> bool {
    if is_command_shortcut(key_code, flags, KEY_W) {
        a == KeyAction::CloseWindow
    } else if is_command_shortcut(key_code, flags, KEY_Q) {
        a == KeyAction::Quit
    } else if is_command_shortcut(key_code, flags, KEY_N) {
        a == KeyAction::NewWindow
    } else if is_command_shortcut(key_code, flags, KEY_C) {
        a == KeyAction::Copy
    } else if is_command_shortcut(key_code, flags, KEY_V) {
        a == KeyAction::Paste
    } else if key_code == KEY_PAGE_UP {
        a == KeyAction::PageUp
    } else if key_code == KEY_PAGE_DOWN {
        a == KeyAction::PageDown
    } else if uses_text_input(key_code, flags) {
        a == KeyAction::TextInput
    } else {
        match characters {
            None => a == KeyAction::Ignore,
            Some(input) => match key_event_bytes(key_code, flags, input) {
                Some(b) => a matches KeyAction::Send(v) && v@ == b,
                None => a == KeyAction::Ignore,
            },
        }
    }
}

impl TerminalView {
    /// Decides what a key press does, from its key code, the modifiers held
    /// and the characters the event carries.
    pub fn key_down_action(key_code: u16, flags: KeyModifiers, characters: Option<&str>) -> (a: KeyAction)
        ensures
            key_action_spec(key_code, flags, characters, a),
    {
        if is_command_key_parts(key_code, flags, KEY_W) {
            return KeyAction::CloseWindow;
        }
        if is_command_key_parts(key_code, flags, KEY_Q) {
            return KeyAction::Quit;
        }
        if is_command_key_parts(key_code, flags, KEY_N) {
            return KeyAction::NewWindow;
        }
        if is_command_key_parts(key_code, flags, KEY_C) {
            return KeyAction::Copy;
        }
        if is_command_key_parts(key_code, flags, KEY_V) {
            return KeyAction::Paste;
        }
        if key_code == KEY_PAGE_UP {
            return KeyAction::PageUp;
        }
        if key_code == KEY_PAGE_DOWN {
            return KeyAction::PageDown;
        }
        if should_use_text_input_parts(key_code, flags) {
            return KeyAction::TextInput;
        }
        match characters {
            None => KeyAction::Ignore,
            Some(input) => match encode_key_event(key_code, flags, input) {
                Some(bytes) => KeyAction::Send(bytes),
                None => KeyAction::Ignore,
            },
        }
    }
}

/// The report of a mouse event when the program asked for mouse reports: the
/// button code with the modifier bits set, in the SGR format when the program
/// asked for it, else in the legacy format.
pub fn mouse_report(modes: TerminalModes, code: u16, modifiers: u16, point: GridPoint, release: bool) -> (r: Option<Vec<u8>>)
    requires
        point.row < usize::MAX,
        point.col < usize::MAX,
    ensures
        !modes.mouse_reporting ==> r is None,
        modes.mouse_reporting && modes.sgr_mouse ==> (r matches Some(b) && b@ == sgr_mouse_report_spec(
            code | modifiers,
            point.row,
            point.col,
            release,
        )),
        modes.mouse_reporting && !modes.sgr_mouse ==> (r matches Some(b) && b@ == legacy_mouse_report_spec(
            code | modifiers,
            point.row,
            point.col,
            release,
        )),
{
    if !modes.mouse_reporting {
        return None;
    }
    if modes.sgr_mouse {
        Some(sgr_mouse_report(code | modifiers, point.row, point.col, release))
    } else {
        Some(legacy_mouse_report(code | modifiers, point.row, point.col, release))
    }
}

} // verus!
