use vstd::prelude::*;
use vstd::slice::slice_to_vec;
use vstd::string::StringSliceAdditionalSpecFns;

use crate::text::str_chars;

verus! {

/// Virtual key code of Return.
pub const KEY_RETURN: u16 = 36;
/// Virtual key code of Tab.
pub const KEY_TAB: u16 = 48;
/// Virtual key code of Escape.
pub const KEY_ESCAPE: u16 = 53;
/// Virtual key code of Backspace (labelled Delete on Mac keyboards).
pub const KEY_BACKSPACE: u16 = 51;
/// Virtual key code of forward Delete.
pub const KEY_FORWARD_DELETE: u16 = 117;
/// Virtual key code of Home.
pub const KEY_HOME: u16 = 115;
/// Virtual key code of End.
pub const KEY_END: u16 = 119;
/// Virtual key code of Page Up.
pub const KEY_PAGE_UP: u16 = 116;
/// Virtual key code of Page Down.
pub const KEY_PAGE_DOWN: u16 = 121;
/// Virtual key code of the left arrow.
pub const KEY_LEFT: u16 = 123;
/// Virtual key code of the right arrow.
pub const KEY_RIGHT: u16 = 124;
/// Virtual key code of the down arrow.
pub const KEY_DOWN: u16 = 125;
/// Virtual key code of the up arrow.
pub const KEY_UP: u16 = 126;
/// Virtual key code of the keypad Enter.
pub const KEY_KEYPAD_ENTER: u16 = 76;
/// Virtual key code of the letter C.
pub const KEY_C: u16 = 8;
/// Virtual key code of the letter D.
pub const KEY_D: u16 = 2;
/// Virtual key code of the letter V.
pub const KEY_V: u16 = 9;
/// Virtual key code of the letter Q.
pub const KEY_Q: u16 = 12;
/// Virtual key code of the letter W.
pub const KEY_W: u16 = 13;
/// Virtual key code of the letter N.
pub const KEY_N: u16 = 45;
/// Virtual key code of F1.
pub const KEY_F1: u16 = 122;
/// Virtual key code of F2.
pub const KEY_F2: u16 = 120;
/// Virtual key code of F3.
pub const KEY_F3: u16 = 99;
/// Virtual key code of F4.
pub const KEY_F4: u16 = 118;
/// Virtual key code of F5.
pub const KEY_F5: u16 = 96;
/// Virtual key code of F6.
pub const KEY_F6: u16 = 97;
/// Virtual key code of F7.
pub const KEY_F7: u16 = 98;
/// Virtual key code of F8.
pub const KEY_F8: u16 = 100;
/// Virtual key code of F9.
pub const KEY_F9: u16 = 101;
/// Virtual key code of F10.
pub const KEY_F10: u16 = 109;
/// Virtual key code of F11.
pub const KEY_F11: u16 = 103;
/// Virtual key code of F12.
pub const KEY_F12: u16 = 111;

/// The modifier keys held during a key or mouse event.
#[derive(Clone, Copy, Debug, PartialEq, Eq, Structural)]
pub struct KeyModifiers {
    pub shift: bool,
    pub control: bool,
    pub option: bool,
    pub command: bool,
}

/// No modifier held.
pub open spec fn no_modifiers() -> KeyModifiers {
    KeyModifiers { shift: false, control: false, option: false, command: false }
}

impl Default for KeyModifiers {
    fn default() -> (m: KeyModifiers)
        ensures
            m == no_modifiers(),
    {
        KeyModifiers { shift: false, control: false, option: false, command: false }
    }
}

/// Text that the input method delivers as a control character of its own:
/// ETX (Ctrl-C) and EOT (Ctrl-D) pass through as that byte.
pub open spec fn control_text_bytes(input: Seq<char>) -> Option<Seq<u8>> {
    if input == seq!['\u{3}'] {
        Some(seq![0x03u8])
    } else if input == seq!['\u{4}'] {
        Some(seq![0x04u8])
    } else {
        None
    }
}

/// Control held with C or D sends ETX or EOT.
pub open spec fn control_key_bytes(flags: KeyModifiers, key_code: u16) -> Option<Seq<u8>> {
    if !flags.control {
        None
    } else if key_code == KEY_C {
        Some(seq![0x03u8])
    } else if key_code == KEY_D {
        Some(seq![0x04u8])
    } else {
        None
    }
}

/// The bytes of the keys that send a fixed sequence: Return, Backspace and the
/// navigation keys (cursor keys in normal mode).
pub open spec fn key_sequence(key_code: u16) -> Option<Seq<u8>> {
    if key_code == KEY_RETURN {
        Some(seq![0x0du8])
    } else if key_code == KEY_BACKSPACE {
        Some(seq![0x7fu8])
    } else if key_code == KEY_FORWARD_DELETE {
        Some(seq![0x1bu8, 0x5b, 0x33, 0x7e])
    } else if key_code == KEY_HOME {
        Some(seq![0x1bu8, 0x5b, 0x48])
    } else if key_code == KEY_END {
        Some(seq![0x1bu8, 0x5b, 0x46])
    } else if key_code == KEY_PAGE_UP {
        Some(seq![0x1bu8, 0x5b, 0x35, 0x7e])
    } else if key_code == KEY_PAGE_DOWN {
        Some(seq![0x1bu8, 0x5b, 0x36, 0x7e])
    } else if key_code == KEY_UP {
        Some(seq![0x1bu8, 0x5b, 0x41])
    } else if key_code == KEY_DOWN {
        Some(seq![0x1bu8, 0x5b, 0x42])
    } else if key_code == KEY_RIGHT {
        Some(seq![0x1bu8, 0x5b, 0x43])
    } else if key_code == KEY_LEFT {
        Some(seq![0x1bu8, 0x5b, 0x44])
    } else {
        None
    }
}

/// What a key press sends to the program: control text first, then a
/// Control shortcut, then a fixed key sequence, else the typed text in UTF-8
/// (nothing when there is none).
pub open spec fn key_event_bytes(key_code: u16, flags: KeyModifiers, input: &str) -> Option<Seq<u8>> {
    match control_text_bytes(input@) {
        Some(b) => Some(b),
        None => match control_key_bytes(flags, key_code) {
            Some(b) => Some(b),
            None => match key_sequence(key_code) {
                Some(b) => Some(b),
                None => if input@.len() == 0 {
                    None
                } else {
                    Some(input.spec_bytes())
                },
            },
        },
    }
}

/// The bytes of a control character that the input method delivered as text.
pub fn encode_control_text(input: &str) -> (r: Option<Vec<u8>>)
    ensures
        match r {
            Some(b) => control_text_bytes(input@) == Some(b@),
            None => control_text_bytes(input@) is None,
        },
{
    let chars = str_chars(input);
    if chars.len() == 1 && chars[0] == '\u{3}' {
        assert(input@ == seq!['\u{3}']);
        let b: [u8; 1] = [0x03];
        Some(slice_to_vec(&b))
    } else if chars.len() == 1 && chars[0] == '\u{4}' {
        assert(input@ == seq!['\u{4}']);
        let b: [u8; 1] = [0x04];
        Some(slice_to_vec(&b))
    } else {
        proof {
            if input@ == seq!['\u{3}'] || input@ == seq!['\u{4}'] {
                assert(chars@[0] == input@[0]);
            }
        }
        None
    }
}

/// The bytes of a Control shortcut, taken from the key code.
pub fn encode_control_key(flags: KeyModifiers, key_code: u16) -> (r: Option<Vec<u8>>)
    ensures
        match r {
            Some(b) => control_key_bytes(flags, key_code) == Some(b@),
            None => control_key_bytes(flags, key_code) is None,
        },
{
    if !flags.control {
        return None;
    }
    if key_code == KEY_C {
        let b: [u8; 1] = [0x03];
        Some(slice_to_vec(&b))
    } else if key_code == KEY_D {
        let b: [u8; 1] = [0x04];
        Some(slice_to_vec(&b))
    } else {
        None
    }
}

fn key_sequence_bytes(key_code: u16) -> (r: Option<Vec<u8>>)
    ensures
        match r {
            Some(b) => key_sequence(key_code) == Some(b@),
            None => key_sequence(key_code) is None,
        },
{
    if key_code == KEY_RETURN {
        let b: [u8; 1] = [0x0d];
        Some(slice_to_vec(&b))
    } else if key_code == KEY_BACKSPACE {
        let b: [u8; 1] = [0x7f];
        Some(slice_to_vec(&b))
    } else if key_code == KEY_FORWARD_DELETE {
        let b: [u8; 4] = [0x1b, 0x5b, 0x33, 0x7e];
        Some(slice_to_vec(&b))
    } else if key_code == KEY_HOME {
        let b: [u8; 3] = [0x1b, 0x5b, 0x48];
        Some(slice_to_vec(&b))
    } else if key_code == KEY_END {
        let b: [u8; 3] = [0x1b, 0x5b, 0x46];
        Some(slice_to_vec(&b))
    } else if key_code == KEY_PAGE_UP {
        let b: [u8; 4] = [0x1b, 0x5b, 0x35, 0x7e];
        Some(slice_to_vec(&b))
    } else if key_code == KEY_PAGE_DOWN {
        let b: [u8; 4] = [0x1b, 0x5b, 0x36, 0x7e];
        Some(slice_to_vec(&b))
    } else if key_code == KEY_UP {
        let b: [u8; 3] = [0x1b, 0x5b, 0x41];
        Some(slice_to_vec(&b))
    } else if key_code == KEY_DOWN {
        let b: [u8; 3] = [0x1b, 0x5b, 0x42];
        Some(slice_to_vec(&b))
    } else if key_code == KEY_RIGHT {
        let b: [u8; 3] = [0x1b, 0x5b, 0x43];
        Some(slice_to_vec(&b))
    } else if key_code == KEY_LEFT {
        let b: [u8; 3] = [0x1b, 0x5b, 0x44];
        Some(slice_to_vec(&b))
    } else {
        None
    }
}

/// The bytes a key press sends to the program, from its key code, the
/// modifiers held and the text the input method produced for it.
pub fn encode_key_event(key_code: u16, flags: KeyModifiers, input: &str) -> (r: Option<Vec<u8>>)
    ensures
        match r {
            Some(b) => key_event_bytes(key_code, flags, input) == Some(b@),
            None => key_event_bytes(key_code, flags, input) is None,
        },
{
    if let Some(bytes) = encode_control_text(input) {
        return Some(bytes);
    }
    if let Some(bytes) = encode_control_key(flags, key_code) {
        return Some(bytes);
    }
    if let Some(bytes) = key_sequence_bytes(key_code) {
        return Some(bytes);
    }
    if input.is_empty() {
        None
    } else {
        Some(slice_to_vec(input.as_bytes()))
    }
}

/// Whether a key press with these modifiers is a Command shortcut for
/// `expected_key_code`: Command held, neither Control nor Option.
pub open spec fn is_command_shortcut(event_key_code: u16, flags: KeyModifiers, expected_key_code: u16) -> bool {
    event_key_code == expected_key_code && flags.command && !flags.control && !flags.option
}

/// Whether a key event is the Command shortcut for `expected_key_code`.
pub fn is_command_key_parts(event_key_code: u16, flags: KeyModifiers, expected_key_code: u16) -> (b: bool)
    ensures
        b == is_command_shortcut(event_key_code, flags, expected_key_code),
{
    event_key_code == expected_key_code && flags.command && !(flags.control || flags.option)
}

/// Keys that send their own sequence rather than text: Return, Tab, Escape,
/// keypad Enter, the function keys, paging, Backspace, forward Delete, Home,
/// End and the arrows.
pub open spec fn is_special_key(key_code: u16) -> bool {
    key_code == KEY_RETURN || key_code == KEY_TAB || key_code == KEY_ESCAPE || key_code == KEY_KEYPAD_ENTER
        || key_code == KEY_F1 || key_code == KEY_F2 || key_code == KEY_F3 || key_code == KEY_F4
        || key_code == KEY_F5 || key_code == KEY_F6 || key_code == KEY_F7 || key_code == KEY_F8
        || key_code == KEY_F9 || key_code == KEY_F10 || key_code == KEY_F11 || key_code == KEY_F12
        || key_code == KEY_PAGE_UP || key_code == KEY_PAGE_DOWN || key_code == KEY_BACKSPACE
        || key_code == KEY_FORWARD_DELETE || key_code == KEY_HOME || key_code == KEY_END
        || key_code == KEY_LEFT || key_code == KEY_RIGHT || key_code == KEY_DOWN || key_code == KEY_UP
}

/// Whether a key press goes through the input method as text: no Command,
/// Control or Option held (Shift alone is fine) and not a special key.
pub open spec fn uses_text_input(key_code: u16, flags: KeyModifiers) -> bool {
    !flags.command && !flags.control && !flags.option && !is_special_key(key_code)
}

/// Whether a key press should be handed to the input method as text.
pub fn should_use_text_input_parts(key_code: u16, flags: KeyModifiers) -> (b: bool)
    ensures
        b == uses_text_input(key_code, flags),
{
    if flags.command || flags.control || flags.option {
        return false;
    }
    !(key_code == KEY_RETURN || key_code == KEY_TAB || key_code == KEY_ESCAPE || key_code == KEY_KEYPAD_ENTER
        || key_code == KEY_F1 || key_code == KEY_F2 || key_code == KEY_F3 || key_code == KEY_F4
        || key_code == KEY_F5 || key_code == KEY_F6 || key_code == KEY_F7 || key_code == KEY_F8
        || key_code == KEY_F9 || key_code == KEY_F10 || key_code == KEY_F11 || key_code == KEY_F12
        || key_code == KEY_PAGE_UP || key_code == KEY_PAGE_DOWN || key_code == KEY_BACKSPACE
        || key_code == KEY_FORWARD_DELETE || key_code == KEY_HOME || key_code == KEY_END
        || key_code == KEY_LEFT || key_code == KEY_RIGHT || key_code == KEY_DOWN || key_code == KEY_UP)
}

/// Shift, Control and Option as given, Command not held.
pub open spec fn held(shift: bool, control: bool, option: bool) -> KeyModifiers {
    KeyModifiers { shift, control, option, command: false }
}

/// The key events that a smoke run can name: F5 and the up arrow with
/// combinations of Shift, Control and Option, and Control-Option-right.
pub open spec fn smoke_key_event(name: Seq<char>) -> Option<(KeyModifiers, u16)> {
    if name == "control-f5"@ {
        Some((held(false, true, false), KEY_F5))
    } else if name == "shift-f5"@ {
        Some((held(true, false, false), KEY_F5))
    } else if name == "option-f5"@ {
        Some((held(false, false, true), KEY_F5))
    } else if name == "shift-option-f5"@ {
        Some((held(true, false, true), KEY_F5))
    } else if name == "shift-control-f5"@ {
        Some((held(true, true, false), KEY_F5))
    } else if name == "control-option-f5"@ {
        Some((held(false, true, true), KEY_F5))
    } else if name == "shift-control-option-f5"@ {
        Some((held(true, true, true), KEY_F5))
    } else if name == "shift-up"@ {
        Some((held(true, false, false), KEY_UP))
    } else if name == "option-up"@ {
        Some((held(false, false, true), KEY_UP))
    } else if name == "shift-option-up"@ {
        Some((held(true, false, true), KEY_UP))
    } else if name == "control-up"@ {
        Some((held(false, true, false), KEY_UP))
    } else if name == "shift-control-up"@ {
        Some((held(true, true, false), KEY_UP))
    } else if name == "control-option-up"@ {
        Some((held(false, true, true), KEY_UP))
    } else if name == "shift-control-option-up"@ {
        Some((held(true, true, true), KEY_UP))
    } else if name == "control-option-right"@ {
        Some((held(false, true, true), KEY_RIGHT))
    } else {
        None
    }
}

/// Whether two character sequences are equal.
pub(crate) fn chars_equal(a: &[char], b: &[char]) -> (r: bool)
    ensures
        r == (a@ == b@),
{
    if a.len() != b.len() {
        return false;
    }
    let mut i: usize = 0;
    while i < a.len()
        invariant
            a@.len() == b@.len(),
            i <= a@.len(),
            a@.take(i as int) == b@.take(i as int),
        decreases a@.len() - i,
    {
        if a[i] != b[i] {
            assert(a@[i as int] != b@[i as int]);
            return false;
        }
        assert(a@.take(i + 1) == a@.take(i as int).push(a@[i as int]));
        assert(b@.take(i + 1) == b@.take(i as int).push(b@[i as int]));
        i += 1;
    }
    assert(a@.take(i as int) == a@);
    assert(b@.take(i as int) == b@);
    true
}

fn smoke_event_of_chars(name: &[char]) -> (r: Option<(KeyModifiers, u16)>)
    ensures
        r == smoke_key_event(name@),
{
    let none = KeyModifiers::default();
    if chars_equal(name, str_chars("control-f5").as_slice()) {
        Some((KeyModifiers { control: true, ..none }, KEY_F5))
    } else if chars_equal(name, str_chars("shift-f5").as_slice()) {
        Some((KeyModifiers { shift: true, ..none }, KEY_F5))
    } else if chars_equal(name, str_chars("option-f5").as_slice()) {
        Some((KeyModifiers { option: true, ..none }, KEY_F5))
    } else if chars_equal(name, str_chars("shift-option-f5").as_slice()) {
        Some((KeyModifiers { shift: true, option: true, ..none }, KEY_F5))
    } else if chars_equal(name, str_chars("shift-control-f5").as_slice()) {
        Some((KeyModifiers { shift: true, control: true, ..none }, KEY_F5))
    } else if chars_equal(name, str_chars("control-option-f5").as_slice()) {
        Some((KeyModifiers { control: true, option: true, ..none }, KEY_F5))
    } else if chars_equal(name, str_chars("shift-control-option-f5").as_slice()) {
        Some((KeyModifiers { shift: true, control: true, option: true, ..none }, KEY_F5))
    } else if chars_equal(name, str_chars("shift-up").as_slice()) {
        Some((KeyModifiers { shift: true, ..none }, KEY_UP))
    } else if chars_equal(name, str_chars("option-up").as_slice()) {
        Some((KeyModifiers { option: true, ..none }, KEY_UP))
    } else if chars_equal(name, str_chars("shift-option-up").as_slice()) {
        Some((KeyModifiers { shift: true, option: true, ..none }, KEY_UP))
    } else if chars_equal(name, str_chars("control-up").as_slice()) {
        Some((KeyModifiers { control: true, ..none }, KEY_UP))
    } else if chars_equal(name, str_chars("shift-control-up").as_slice()) {
        Some((KeyModifiers { shift: true, control: true, ..none }, KEY_UP))
    } else if chars_equal(name, str_chars("control-option-up").as_slice()) {
        Some((KeyModifiers { control: true, option: true, ..none }, KEY_UP))
    } else if chars_equal(name, str_chars("shift-control-option-up").as_slice()) {
        Some((KeyModifiers { shift: true, control: true, option: true, ..none }, KEY_UP))
    } else if chars_equal(name, str_chars("control-option-right").as_slice()) {
        Some((KeyModifiers { control: true, option: true, ..none }, KEY_RIGHT))
    } else {
        None
    }
}

/// The key event a smoke run names, if it is one of the known names.
pub fn native_key_smoke_event(value: &str) -> (r: Option<(KeyModifiers, u16)>)
    ensures
        r == smoke_key_event(value@),
{
    let chars = str_chars(value);
    smoke_event_of_chars(chars.as_slice())
}

/// Unicode `White_Space`, the characters that `str::trim` removes.
pub open spec fn is_white_space(c: char) -> bool {
    ||| '\u{9}' <= c <= '\u{d}'
    ||| c == ' '
    ||| c == '\u{85}'
    ||| c == '\u{a0}'
    ||| c == '\u{1680}'
    ||| '\u{2000}' <= c <= '\u{200a}'
    ||| c == '\u{2028}'
    ||| c == '\u{2029}'
    ||| c == '\u{202f}'
    ||| c == '\u{205f}'
    ||| c == '\u{3000}'
}

fn white_space(c: char) -> (b: bool)
    ensures
        b == is_white_space(c),
{
    ('\u{9}' <= c && c <= '\u{d}') || c == ' ' || c == '\u{85}' || c == '\u{a0}' || c == '\u{1680}' || (
    '\u{2000}' <= c && c <= '\u{200a}') || c == '\u{2028}' || c == '\u{2029}' || c == '\u{202f}' || c
        == '\u{205f}' || c == '\u{3000}'
}

/// `s` without trailing white space.
pub open spec fn trim_end(s: Seq<char>) -> Seq<char>
    decreases s.len(),
{
    if s.len() > 0 && is_white_space(s.last()) {
        trim_end(s.drop_last())
    } else {
        s
    }
}

/// `s` without leading white space.
pub open spec fn trim_start(s: Seq<char>) -> Seq<char>
    decreases s.len(),
{
    if s.len() > 0 && is_white_space(s[0]) {
        trim_start(s.drop_first())
    } else {
        s
    }
}

/// `s` without leading and trailing white space.
pub open spec fn trim(s: Seq<char>) -> Seq<char> {
    trim_start(trim_end(s))
}

fn trim_chars(s: &[char]) -> (t: Vec<char>)
    ensures
        t@ == trim(s@),
{
    let mut hi: usize = s.len();
    assert(s@.take(hi as int) == s@);
    while hi > 0 && white_space(s[hi - 1])
        invariant
            hi <= s@.len(),
            trim_end(s@.take(hi as int)) == trim_end(s@),
        decreases hi,
    {
        assert(s@.take(hi - 1) == s@.take(hi as int).drop_last());
        hi -= 1;
    }
    let ghost ended = s@.take(hi as int);
    assert(trim_end(ended) == ended);
    let mut lo: usize = 0;
    while lo < hi && white_space(s[lo])
        invariant
            lo <= hi <= s@.len(),
            ended == s@.take(hi as int),
            trim_start(s@.subrange(lo as int, hi as int)) == trim_start(ended),
        decreases hi - lo,
    {
        assert(s@.subrange(lo + 1, hi as int) == s@.subrange(lo as int, hi as int).drop_first());
        lo += 1;
    }
    let t = vstd::slice::slice_to_vec(vstd::slice::slice_subrange(s, lo, hi));
    assert(s@.subrange(0, hi as int) == ended);
    t
}

/// The pieces of `s` between commas, as `str::split(',')` gives them.
pub open spec fn split_commas(s: Seq<char>) -> Seq<Seq<char>>
    decreases s.len(),
{
    if s.len() == 0 {
        seq![Seq::empty()]
    } else {
        let prev = split_commas(s.drop_last());
        if s.last() == ',' {
            prev.push(Seq::empty())
        } else {
            prev.update(prev.len() - 1, prev.last().push(s.last()))
        }
    }
}

proof fn lemma_split_commas_nonempty(s: Seq<char>)
    ensures
        split_commas(s).len() >= 1,
    decreases s.len(),
{
    if s.len() > 0 {
        lemma_split_commas_nonempty(s.drop_last());
    }
}

proof fn lemma_split_prefix(s: Seq<char>, m: int, n: int)
    requires
        0 <= m <= n <= s.len(),
    ensures
        split_commas(s.take(n)).len() >= split_commas(s.take(m)).len(),
        forall|k: int|
            0 <= k < split_commas(s.take(m)).len() - 1 ==> #[trigger] split_commas(s.take(n))[k] == split_commas(
                s.take(m),
            )[k],
    decreases n - m,
{
    if n > m {
        lemma_split_prefix(s, m, n - 1);
        assert(s.take(n).drop_last() == s.take(n - 1));
        lemma_split_commas_nonempty(s.take(n - 1));
    }
}

/// A comma-separated list of smoke key names, each trimmed: all of their
/// events in order, or nothing when one name is unknown.
pub open spec fn smoke_key_events(value: Seq<char>) -> Option<Seq<(KeyModifiers, u16)>> {
    let names = split_commas(value);
    if names.len() > 0 && forall|i: int| 0 <= i < names.len() ==> (#[trigger] smoke_key_event(trim(names[i]))) is Some {
        Some(Seq::new(names.len(), |i: int| smoke_key_event(trim(names[i]))->0))
    } else {
        None
    }
}

/// The key events of a comma-separated list of smoke key names.
pub fn native_key_smoke_events(value: &str) -> (r: Option<Vec<(KeyModifiers, u16)>>)
    ensures
        match r {
            Some(events) => smoke_key_events(value@) == Some(events@),
            None => smoke_key_events(value@) is None,
        },
{
    let chars = str_chars(value);
    let ghost names = split_commas(value@);
    let mut events: Vec<(KeyModifiers, u16)> = Vec::new();
    let mut current: Vec<char> = Vec::new();
    let ghost mut done: Seq<Seq<char>> = Seq::empty();
    let mut i: usize = 0;
    while i < chars.len()
        invariant
            i <= chars@.len(),
            chars@ == value@,
            names == split_commas(value@),
            split_commas(chars@.take(i as int)) == done.push(current@),
            events@.len() == done.len(),
            forall|k: int| 0 <= k < done.len() ==> #[trigger] smoke_key_event(trim(done[k])) == Some(events@[k]),
        decreases chars@.len() - i,
    {
        let c = chars[i];
        proof {
            assert(chars@.take(i + 1).drop_last() == chars@.take(i as int));
            assert(chars@.take(i + 1).last() == c);
        }
        if c == ',' {
            let name = trim_chars(current.as_slice());
            match smoke_event_of_chars(name.as_slice()) {
                Some(event) => {
                    events.push(event);
                    proof {
                        let d2 = done.push(current@);
                        assert forall|k: int| 0 <= k < d2.len() implies #[trigger] smoke_key_event(trim(d2[k])) == Some(events@[k]) by {
                            if k < done.len() {
                                assert(d2[k] == done[k]);
                            }
                        }
                        done = d2;
                    }
                    current = Vec::new();
                    assert(split_commas(chars@.take(i + 1)) == done.push(current@));
                },
                None => {
                    proof {
                        let t = chars@.take(i + 1);
                        assert(split_commas(t) == done.push(current@).push(Seq::empty()));
                        lemma_split_prefix(value@, i + 1, value@.len() as int);
                        assert(value@.take(value@.len() as int) == value@);
                        assert(split_commas(t)[done.len() as int] == current@);
                        assert(names[done.len() as int] == current@);
                        assert(smoke_key_event(trim(names[done.len() as int])) is None);
                    }
                    return None;
                },
            }
        } else {
            let ghost before = current@;
            current.push(c);
            proof {
                let prev = done.push(before);
                assert(prev.update(prev.len() - 1, prev.last().push(c)) =~= done.push(current@));
            }
        }
        i += 1;
    }
    assert(chars@.take(i as int) == chars@);
    let name = trim_chars(current.as_slice());
    match smoke_event_of_chars(name.as_slice()) {
        Some(event) => {
            events.push(event);
            proof {
                assert(names == done.push(current@));
                assert forall|k: int| 0 <= k < names.len() implies #[trigger] smoke_key_event(trim(names[k])) == Some(events@[k]) by {
                    if k < done.len() {
                        assert(names[k] == done[k]);
                    }
                }
                assert(events@ =~= Seq::new(names.len(), |k: int| smoke_key_event(trim(names[k]))->0));
            }
            Some(events)
        },
        None => {
            assert(names[done.len() as int] == current@);
            None
        },
    }
}

} // verus!
