use vstd::prelude::*;

use base64::engine::general_purpose::STANDARD;
use base64::Engine;

use crate::charset::{char_from_u32, char_with_code, charset_char, is_scalar_value, map_printable_char, Charset};
use crate::cursor::CursorStyle;
use crate::style::{plain_style, Color, Style};
use vstd::utf8::{decode_utf8, encode_scalar, encode_utf8, valid_utf8};

verus! {

/// Largest clipboard payload, after decoding, that OSC 52 may set.
pub const MAX_OSC52_DECODED_BYTES: usize = 1048576;

/// Largest selector that an OSC 52 query may name.
pub const MAX_OSC52_SELECTOR_BYTES: usize = 64;

/// Largest window title that OSC 0 or 2 may set.
pub const MAX_OSC_TITLE_BYTES: usize = 4096;

#[derive(Clone, Copy, Debug, PartialEq, Eq, Structural)]
pub enum LineClearMode {
    FromCursor,
    ToCursor,
    Entire,
}

#[derive(Clone, Copy, Debug, PartialEq, Eq, Structural)]
pub enum ScreenClearMode {
    FromCursor,
    ToCursor,
    Entire,
}

/// What the terminal is asked to do by the input stream. `Text` is the type
/// of textual payloads and `Numbers` that of parameter lists, so that the
/// same shape serves for executable values (`Action`) and for their
/// abstract content (`ActionView`).
#[derive(Clone, Debug, PartialEq, Eq)]
pub enum ActionOf<Text, Numbers> {
    Print(char),
    CarriageReturn,
    Newline,
    Backspace,
    Tab,
    ClearLine(LineClearMode),
    ClearScreen(ScreenClearMode),
    InsertBlankChars(usize),
    DeleteChars(usize),
    EraseChars(usize),
    InsertLines(usize),
    DeleteLines(usize),
    SaveCursor,
    RestoreCursor,
    EnterAlternateScreen,
    ExitAlternateScreen,
    SetApplicationCursorKeys(bool),
    SetApplicationKeypad(bool),
    SetBracketedPaste(bool),
    SetCursorVisible(bool),
    SetCursorStyle(CursorStyle),
    SetMouseReporting(bool),
    SetSgrMouse(bool),
    PrimaryDeviceAttributes,
    SecondaryDeviceAttributes,
    SetClipboard(Text),
    ClipboardQueryDenied(Text),
    SetWindowTitle(Text),
    DeviceStatusReport,
    CursorPositionReport,
    CursorPosition { row: usize, col: usize },
    CursorUp(usize),
    CursorDown(usize),
    CursorRight(usize),
    CursorLeft(usize),
    CursorColumn(usize),
    SetScrollRegion(Option<(usize, usize)>),
    SetGraphicRendition(Numbers),
    Ignore,
}

pub type Action = ActionOf<String, Vec<usize>>;

pub type ActionView = ActionOf<Seq<char>, Seq<usize>>;

/// The abstract content of an action.
pub open spec fn action_view(a: Action) -> ActionView {
    match a {
        ActionOf::Print(c) => ActionOf::Print(c),
        ActionOf::CarriageReturn => ActionOf::CarriageReturn,
        ActionOf::Newline => ActionOf::Newline,
        ActionOf::Backspace => ActionOf::Backspace,
        ActionOf::Tab => ActionOf::Tab,
        ActionOf::ClearLine(m) => ActionOf::ClearLine(m),
        ActionOf::ClearScreen(m) => ActionOf::ClearScreen(m),
        ActionOf::InsertBlankChars(n) => ActionOf::InsertBlankChars(n),
        ActionOf::DeleteChars(n) => ActionOf::DeleteChars(n),
        ActionOf::EraseChars(n) => ActionOf::EraseChars(n),
        ActionOf::InsertLines(n) => ActionOf::InsertLines(n),
        ActionOf::DeleteLines(n) => ActionOf::DeleteLines(n),
        ActionOf::SaveCursor => ActionOf::SaveCursor,
        ActionOf::RestoreCursor => ActionOf::RestoreCursor,
        ActionOf::EnterAlternateScreen => ActionOf::EnterAlternateScreen,
        ActionOf::ExitAlternateScreen => ActionOf::ExitAlternateScreen,
        ActionOf::SetApplicationCursorKeys(b) => ActionOf::SetApplicationCursorKeys(b),
        ActionOf::SetApplicationKeypad(b) => ActionOf::SetApplicationKeypad(b),
        ActionOf::SetBracketedPaste(b) => ActionOf::SetBracketedPaste(b),
        ActionOf::SetCursorVisible(b) => ActionOf::SetCursorVisible(b),
        ActionOf::SetCursorStyle(s) => ActionOf::SetCursorStyle(s),
        ActionOf::SetMouseReporting(b) => ActionOf::SetMouseReporting(b),
        ActionOf::SetSgrMouse(b) => ActionOf::SetSgrMouse(b),
        ActionOf::PrimaryDeviceAttributes => ActionOf::PrimaryDeviceAttributes,
        ActionOf::SecondaryDeviceAttributes => ActionOf::SecondaryDeviceAttributes,
        ActionOf::SetClipboard(t) => ActionOf::SetClipboard(t@),
        ActionOf::ClipboardQueryDenied(t) => ActionOf::ClipboardQueryDenied(t@),
        ActionOf::SetWindowTitle(t) => ActionOf::SetWindowTitle(t@),
        ActionOf::DeviceStatusReport => ActionOf::DeviceStatusReport,
        ActionOf::CursorPositionReport => ActionOf::CursorPositionReport,
        ActionOf::CursorPosition { row, col } => ActionOf::CursorPosition { row, col },
        ActionOf::CursorUp(n) => ActionOf::CursorUp(n),
        ActionOf::CursorDown(n) => ActionOf::CursorDown(n),
        ActionOf::CursorRight(n) => ActionOf::CursorRight(n),
        ActionOf::CursorLeft(n) => ActionOf::CursorLeft(n),
        ActionOf::CursorColumn(n) => ActionOf::CursorColumn(n),
        ActionOf::SetScrollRegion(r) => ActionOf::SetScrollRegion(r),
        ActionOf::SetGraphicRendition(v) => ActionOf::SetGraphicRendition(v@),
        ActionOf::Ignore => ActionOf::Ignore,
    }
}

/// The abstract content of a list of actions.
pub open spec fn actions_view(actions: Seq<Action>) -> Seq<ActionView> {
    actions.map_values(|a: Action| action_view(a))
}

pub open spec fn option_action_view(a: Option<Action>) -> Option<ActionView> {
    match a {
        Some(a) => Some(action_view(a)),
        None => None,
    }
}

/// The four designation slots G0 to G3.
#[derive(Clone, Copy, Debug, PartialEq, Eq, Structural)]
pub enum ActiveCharset {
    G0,
    G1,
    G2,
    G3,
}

/// What the four slots hold and which slot is shifted in for the left
/// (GL) and right (GR) halves, plus a pending single shift.
#[derive(Clone, Copy, Debug, PartialEq, Eq, Structural)]
pub struct CharsetState {
    pub g0: Charset,
    pub g1: Charset,
    pub g2: Charset,
    pub g3: Charset,
    pub active: ActiveCharset,
    pub active_right: Option<ActiveCharset>,
    pub single_shift: Option<ActiveCharset>,
}

/// ASCII in every slot, G0 shifted in on the left, nothing on the right.
pub open spec fn initial_charsets() -> CharsetState {
    CharsetState {
        g0: Charset::Ascii,
        g1: Charset::Ascii,
        g2: Charset::Ascii,
        g3: Charset::Ascii,
        active: ActiveCharset::G0,
        active_right: None,
        single_shift: None,
    }
}

impl CharsetState {
    pub fn initial() -> (s: CharsetState)
        ensures
            s == initial_charsets(),
    {
        CharsetState {
            g0: Charset::Ascii,
            g1: Charset::Ascii,
            g2: Charset::Ascii,
            g3: Charset::Ascii,
            active: ActiveCharset::G0,
            active_right: None,
            single_shift: None,
        }
    }

    pub open spec fn slot_spec(self, slot: ActiveCharset) -> Charset {
        match slot {
            ActiveCharset::G0 => self.g0,
            ActiveCharset::G1 => self.g1,
            ActiveCharset::G2 => self.g2,
            ActiveCharset::G3 => self.g3,
        }
    }

    pub fn slot(&self, slot: ActiveCharset) -> (c: Charset)
        ensures
            c == self.slot_spec(slot),
    {
        match slot {
            ActiveCharset::G0 => self.g0,
            ActiveCharset::G1 => self.g1,
            ActiveCharset::G2 => self.g2,
            ActiveCharset::G3 => self.g3,
        }
    }

    /// The same state with `slot` designated to `charset`.
    pub open spec fn designated(self, slot: ActiveCharset, charset: Charset) -> CharsetState {
        match slot {
            ActiveCharset::G0 => CharsetState { g0: charset, ..self },
            ActiveCharset::G1 => CharsetState { g1: charset, ..self },
            ActiveCharset::G2 => CharsetState { g2: charset, ..self },
            ActiveCharset::G3 => CharsetState { g3: charset, ..self },
        }
    }

    pub fn designate(&mut self, slot: ActiveCharset, charset: Charset)
        ensures
            *final(self) == old(self).designated(slot, charset),
    {
        match slot {
            ActiveCharset::G0 => self.g0 = charset,
            ActiveCharset::G1 => self.g1 = charset,
            ActiveCharset::G2 => self.g2 = charset,
            ActiveCharset::G3 => self.g3 = charset,
        }
    }
}

/// A character of the right (GR) half of Latin-1, `0xA0` to `0xFF`.
pub open spec fn is_gr_printable_spec(ch: char) -> bool {
    0xa0 <= ch as u32 <= 0xff
}

/// The left-half (GL) counterpart of a character, `0x80` below it.
pub open spec fn gr_to_gl_spec(ch: char) -> char {
    if is_scalar_value((ch as u32 - 0x80) as u32) {
        char_with_code(ch as u32 - 0x80)
    } else {
        ch
    }
}

/// A C0 or C1 control character (Unicode category Cc).
pub open spec fn is_control_spec(ch: char) -> bool {
    ch as u32 <= 0x1f || (0x7f <= ch as u32 <= 0x9f)
}

pub fn is_gr_printable(ch: char) -> (b: bool)
    ensures
        b == is_gr_printable_spec(ch),
{
    let u = ch as u32;
    0xa0 <= u && u <= 0xff
}

pub fn gr_to_gl_printable(ch: char) -> (r: char)
    requires
        0x80 <= ch as u32,
    ensures
        r == gr_to_gl_spec(ch),
{
    let code = ch as u32 - 0x80;
    match char_from_u32(code) {
        Some(c) => {
            proof {
                vstd::utf8::char_u32_cast(c, code);
            }
            c
        },
        None => ch,
    }
}

/// `char::is_control`: the general category Cc, which is exactly these two ranges.
pub fn is_control(ch: char) -> (b: bool)
    ensures
        b == is_control_spec(ch),
{
    let u = ch as u32;
    u <= 0x1f || (0x7f <= u && u <= 0x9f)
}

/// A printable character: a pending single shift picks the set for this
/// one character; otherwise a GR character goes through the set shifted
/// into the right half, if any; otherwise the left half's set applies.
pub open spec fn print_spec(cs: CharsetState, ch: char) -> (CharsetState, ActionView) {
    let is_right = cs.single_shift is None && cs.active_right is Some && is_gr_printable_spec(ch);
    let active = match cs.single_shift {
        Some(slot) => slot,
        None => if is_right {
            cs.active_right.unwrap()
        } else {
            cs.active
        },
    };
    let mapped = if is_right {
        gr_to_gl_spec(ch)
    } else {
        ch
    };
    let action = if ch == '\u{08}' || ch == '\u{7f}' {
        ActionOf::Backspace
    } else if is_control_spec(ch) {
        ActionOf::Ignore
    } else {
        ActionOf::Print(charset_char(mapped, cs.slot_spec(active)))
    };
    (CharsetState { single_shift: None, ..cs }, action)
}

/// A C0 control byte: the few the terminal knows become actions; shift out
/// and shift in switch the left half to G1 and G0 and produce none.
pub open spec fn execute_spec(cs: CharsetState, byte: u8) -> (CharsetState, Option<ActionView>) {
    if byte == 0x0d {
        (cs, Some(ActionOf::CarriageReturn))
    } else if byte == 0x0a {
        (cs, Some(ActionOf::Newline))
    } else if byte == 0x08 || byte == 0x7f {
        (cs, Some(ActionOf::Backspace))
    } else if byte == 0x09 {
        (cs, Some(ActionOf::Tab))
    } else if byte == 0x0e {
        (CharsetState { active: ActiveCharset::G1, ..cs }, None)
    } else if byte == 0x0f {
        (CharsetState { active: ActiveCharset::G0, ..cs }, None)
    } else {
        (cs, Some(ActionOf::Ignore))
    }
}

/// The slot that a designation's first intermediate byte names: `(`, `)`, `*`, `+`.
pub open spec fn designation_slot_spec(byte: u8) -> Option<ActiveCharset> {
    if byte == 0x28 {
        Some(ActiveCharset::G0)
    } else if byte == 0x29 {
        Some(ActiveCharset::G1)
    } else if byte == 0x2a {
        Some(ActiveCharset::G2)
    } else if byte == 0x2b {
        Some(ActiveCharset::G3)
    } else {
        None
    }
}

/// The character set that a designation names by its second intermediate
/// byte (if any) and its final byte.
pub open spec fn designated_charset_spec(second: Option<u8>, byte: u8) -> Option<Charset> {
    match second {
        None => {
            if byte == 0x30 {
                Some(Charset::DecSpecialGraphics)
            } else if byte == 0x41 {
                Some(Charset::British)
            } else if byte == 0x42 {
                Some(Charset::Ascii)
            } else if byte == 0x3e {
                Some(Charset::DecTechnical)
            } else if byte == 0x34 {
                Some(Charset::Dutch)
            } else if byte == 0x43 {
                Some(Charset::Finnish)
            } else if byte == 0x48 || byte == 0x37 {
                Some(Charset::Swedish)
            } else if byte == 0x51 || byte == 0x39 {
                Some(Charset::FrenchCanadian)
            } else if byte == 0x52 || byte == 0x66 {
                Some(Charset::French)
            } else if byte == 0x4b {
                Some(Charset::German)
            } else if byte == 0x59 {
                Some(Charset::Italian)
            } else if byte == 0x49 {
                Some(Charset::JisKatakana)
            } else if byte == 0x4a {
                Some(Charset::JisRoman)
            } else if byte == 0x5a {
                Some(Charset::Spanish)
            } else if byte == 0x3d {
                Some(Charset::Swiss)
            } else if byte == 0x60 || byte == 0x45 || byte == 0x36 {
                Some(Charset::NorwegianDanish)
            } else {
                None
            }
        },
        Some(0x25) => {
            if byte == 0x35 {
                Some(Charset::DecSupplementalGraphics)
            } else if byte == 0x3d {
                Some(Charset::Hebrew)
            } else if byte == 0x32 {
                Some(Charset::Turkish)
            } else if byte == 0x30 {
                Some(Charset::DecTurkishSupplemental)
            } else if byte == 0x33 {
                Some(Charset::SerboCroatian)
            } else if byte == 0x36 {
                Some(Charset::Portuguese)
            } else {
                None
            }
        },
        Some(0x22) => {
            if byte == 0x3e {
                Some(Charset::Greek)
            } else if byte == 0x3f {
                Some(Charset::DecGreekSupplemental)
            } else if byte == 0x34 {
                Some(Charset::DecHebrewSupplemental)
            } else {
                None
            }
        },
        Some(0x26) => {
            if byte == 0x35 {
                Some(Charset::Russian)
            } else if byte == 0x34 {
                Some(Charset::DecCyrillic)
            } else {
                None
            }
        },
        Some(_) => None,
    }
}

/// An escape sequence: cursor save and restore, keypad modes, locking and
/// single shifts, and character set designations. A designation or shift
/// produces no action; a one-byte designation with an unknown final byte
/// is dropped; anything else unknown is ignored.
pub open spec fn esc_spec(cs: CharsetState, intermediates: Seq<u8>, ignore: bool, byte: u8) -> (CharsetState, Option<ActionView>) {
    if ignore {
        (cs, Some(ActionOf::Ignore))
    } else if intermediates.len() == 0 {
        if byte == 0x37 {
            (cs, Some(ActionOf::SaveCursor))
        } else if byte == 0x38 {
            (cs, Some(ActionOf::RestoreCursor))
        } else if byte == 0x3d {
            (cs, Some(ActionOf::SetApplicationKeypad(true)))
        } else if byte == 0x3e {
            (cs, Some(ActionOf::SetApplicationKeypad(false)))
        } else if byte == 0x6e {
            (CharsetState { active: ActiveCharset::G2, ..cs }, None)
        } else if byte == 0x6f {
            (CharsetState { active: ActiveCharset::G3, ..cs }, None)
        } else if byte == 0x7e {
            (CharsetState { active_right: Some(ActiveCharset::G1), ..cs }, None)
        } else if byte == 0x7d {
            (CharsetState { active_right: Some(ActiveCharset::G2), ..cs }, None)
        } else if byte == 0x7c {
            (CharsetState { active_right: Some(ActiveCharset::G3), ..cs }, None)
        } else if byte == 0x4e {
            (CharsetState { single_shift: Some(ActiveCharset::G2), ..cs }, None)
        } else if byte == 0x4f {
            (CharsetState { single_shift: Some(ActiveCharset::G3), ..cs }, None)
        } else {
            (cs, Some(ActionOf::Ignore))
        }
    } else if intermediates.len() <= 2 && designation_slot_spec(intermediates[0]) is Some {
        let slot = designation_slot_spec(intermediates[0]).unwrap();
        let second = if intermediates.len() == 2 {
            Some(intermediates[1])
        } else {
            None
        };
        match designated_charset_spec(second, byte) {
            Some(charset) => (cs.designated(slot, charset), None),
            None => if intermediates.len() == 1 {
                (cs, None)
            } else {
                (cs, Some(ActionOf::Ignore))
            },
        }
    } else {
        (cs, Some(ActionOf::Ignore))
    }
}

pub fn designation_slot(byte: u8) -> (r: Option<ActiveCharset>)
    ensures
        r == designation_slot_spec(byte),
{
    match byte {
        0x28 => Some(ActiveCharset::G0),
        0x29 => Some(ActiveCharset::G1),
        0x2a => Some(ActiveCharset::G2),
        0x2b => Some(ActiveCharset::G3),
        _ => None,
    }
}

pub fn designated_charset(second: Option<u8>, byte: u8) -> (r: Option<Charset>)
    ensures
        r == designated_charset_spec(second, byte),
{
    match second {
        None => match byte {
            0x30 => Some(Charset::DecSpecialGraphics),
            0x41 => Some(Charset::British),
            0x42 => Some(Charset::Ascii),
            0x3e => Some(Charset::DecTechnical),
            0x34 => Some(Charset::Dutch),
            0x43 => Some(Charset::Finnish),
            0x48 | 0x37 => Some(Charset::Swedish),
            0x51 | 0x39 => Some(Charset::FrenchCanadian),
            0x52 | 0x66 => Some(Charset::French),
            0x4b => Some(Charset::German),
            0x59 => Some(Charset::Italian),
            0x49 => Some(Charset::JisKatakana),
            0x4a => Some(Charset::JisRoman),
            0x5a => Some(Charset::Spanish),
            0x3d => Some(Charset::Swiss),
            0x60 | 0x45 | 0x36 => Some(Charset::NorwegianDanish),
            _ => None,
        },
        Some(0x25) => match byte {
            0x35 => Some(Charset::DecSupplementalGraphics),
            0x3d => Some(Charset::Hebrew),
            0x32 => Some(Charset::Turkish),
            0x30 => Some(Charset::DecTurkishSupplemental),
            0x33 => Some(Charset::SerboCroatian),
            0x36 => Some(Charset::Portuguese),
            _ => None,
        },
        Some(0x22) => match byte {
            0x3e => Some(Charset::Greek),
            0x3f => Some(Charset::DecGreekSupplemental),
            0x34 => Some(Charset::DecHebrewSupplemental),
            _ => None,
        },
        Some(0x26) => match byte {
            0x35 => Some(Charset::Russian),
            0x34 => Some(Charset::DecCyrillic),
            _ => None,
        },
        Some(_) => None,
    }
}

/// Handles a printable character.
pub fn print_char(cs: &mut CharsetState, ch: char) -> (a: Action)
    ensures
        (*final(cs), action_view(a)) == print_spec(*old(cs), ch),
{
    let single_shift = cs.single_shift;
    cs.single_shift = None;
    let is_right = single_shift.is_none() && cs.active_right.is_some() && is_gr_printable(ch);
    let active = match single_shift {
        Some(slot) => slot,
        None => if is_right {
            match cs.active_right {
                Some(slot) => slot,
                None => cs.active,
            }
        } else {
            cs.active
        },
    };
    let charset = cs.slot(active);
    let mapped = if is_right { gr_to_gl_printable(ch) } else { ch };
    if ch == '\u{08}' || ch == '\u{7f}' {
        ActionOf::Backspace
    } else if is_control(ch) {
        ActionOf::Ignore
    } else {
        ActionOf::Print(map_printable_char(mapped, charset))
    }
}

/// Handles a C0 control byte.
pub fn execute_byte(cs: &mut CharsetState, byte: u8) -> (a: Option<Action>)
    ensures
        (*final(cs), option_action_view(a)) == execute_spec(*old(cs), byte),
{
    match byte {
        0x0d => Some(ActionOf::CarriageReturn),
        0x0a => Some(ActionOf::Newline),
        0x08 | 0x7f => Some(ActionOf::Backspace),
        0x09 => Some(ActionOf::Tab),
        0x0e => {
            cs.active = ActiveCharset::G1;
            None
        },
        0x0f => {
            cs.active = ActiveCharset::G0;
            None
        },
        _ => Some(ActionOf::Ignore),
    }
}

/// Handles the end of an escape sequence.
pub fn esc_dispatch(cs: &mut CharsetState, intermediates: &[u8], ignore: bool, byte: u8) -> (a: Option<Action>)
    ensures
        (*final(cs), option_action_view(a)) == esc_spec(*old(cs), intermediates@, ignore, byte),
{
    if ignore {
        return Some(ActionOf::Ignore);
    }
    if intermediates.len() == 0 {
        return match byte {
            0x37 => Some(ActionOf::SaveCursor),
            0x38 => Some(ActionOf::RestoreCursor),
            0x3d => Some(ActionOf::SetApplicationKeypad(true)),
            0x3e => Some(ActionOf::SetApplicationKeypad(false)),
            0x6e => {
                cs.active = ActiveCharset::G2;
                None
            },
            0x6f => {
                cs.active = ActiveCharset::G3;
                None
            },
            0x7e => {
                cs.active_right = Some(ActiveCharset::G1);
                None
            },
            0x7d => {
                cs.active_right = Some(ActiveCharset::G2);
                None
            },
            0x7c => {
                cs.active_right = Some(ActiveCharset::G3);
                None
            },
            0x4e => {
                cs.single_shift = Some(ActiveCharset::G2);
                None
            },
            0x4f => {
                cs.single_shift = Some(ActiveCharset::G3);
                None
            },
            _ => Some(ActionOf::Ignore),
        };
    }
    if intermediates.len() <= 2 {
        if let Some(slot) = designation_slot(intermediates[0]) {
            let second = if intermediates.len() == 2 { Some(intermediates[1]) } else { None };
            return match designated_charset(second, byte) {
                Some(charset) => {
                    cs.designate(slot, charset);
                    None
                },
                None => if intermediates.len() == 1 {
                    None
                } else {
                    Some(ActionOf::Ignore)
                },
            };
        }
    }
    Some(ActionOf::Ignore)
}

/// The first number, or `default` when there is none or it is zero.
pub open spec fn first_or_default_spec(numbers: Seq<usize>, default: usize) -> usize {
    if numbers.len() == 0 || numbers[0] == 0 {
        default
    } else {
        numbers[0]
    }
}

/// The number at `index`, or `default` when there are fewer numbers.
pub open spec fn nth_or_spec(numbers: Seq<usize>, index: int, default: usize) -> usize {
    if index < numbers.len() {
        numbers[index]
    } else {
        default
    }
}

/// `n - 1`, or 0 for 0.
pub open spec fn minus_one(n: usize) -> usize {
    if n == 0 {
        0
    } else {
        (n - 1) as usize
    }
}

/// Some number of the list is one of the targets.
pub open spec fn contains_any_spec(numbers: Seq<usize>, targets: Seq<usize>) -> bool {
    exists|i: int| 0 <= i < numbers.len() && targets.contains(#[trigger] numbers[i])
}

/// DECSCUSR: 0 to 2 block, 3 and 4 underline, 5 and 6 bar.
pub open spec fn cursor_style_spec(numbers: Seq<usize>) -> ActionView {
    let n = first_or_default_spec(numbers, 0);
    if n <= 2 {
        ActionOf::SetCursorStyle(CursorStyle::Block)
    } else if n <= 4 {
        ActionOf::SetCursorStyle(CursorStyle::Underline)
    } else if n <= 6 {
        ActionOf::SetCursorStyle(CursorStyle::Bar)
    } else {
        ActionOf::Ignore
    }
}

/// DECSTBM: no numbers resets the region; otherwise top and bottom are
/// one-based and the region must span more than one row.
pub open spec fn scroll_region_spec(numbers: Seq<usize>) -> ActionView {
    if numbers.len() == 0 {
        ActionOf::SetScrollRegion(None)
    } else {
        let top = minus_one(first_or_default_spec(numbers, 1));
        let bottom = minus_one(nth_or_spec(numbers, 1, 0));
        if bottom <= top {
            ActionOf::Ignore
        } else {
            ActionOf::SetScrollRegion(Some((top, bottom)))
        }
    }
}

/// DEC private modes, set with `h` and reset with `l`; the first listed
/// mode that the terminal knows decides.
pub open spec fn private_csi_spec(numbers: Seq<usize>, final_byte: char) -> ActionView {
    if final_byte != 'h' && final_byte != 'l' {
        ActionOf::Ignore
    } else {
        let on = final_byte == 'h';
        if contains_any_spec(numbers, seq![1]) {
            ActionOf::SetApplicationCursorKeys(on)
        } else if contains_any_spec(numbers, seq![25]) {
            ActionOf::SetCursorVisible(on)
        } else if contains_any_spec(numbers, seq![47, 1047, 1049]) {
            if on {
                ActionOf::EnterAlternateScreen
            } else {
                ActionOf::ExitAlternateScreen
            }
        } else if contains_any_spec(numbers, seq![2004]) {
            ActionOf::SetBracketedPaste(on)
        } else if contains_any_spec(numbers, seq![1000, 1002, 1003]) {
            ActionOf::SetMouseReporting(on)
        } else if contains_any_spec(numbers, seq![1006]) {
            ActionOf::SetSgrMouse(on)
        } else {
            ActionOf::Ignore
        }
    }
}

/// A control sequence (CSI) with its numeric parameters, intermediate
/// bytes and final character.
pub open spec fn csi_action_spec(numbers: Seq<usize>, intermediates: Seq<u8>, final_byte: char) -> ActionView {
    if intermediates == seq![0x3fu8] {
        private_csi_spec(numbers, final_byte)
    } else if intermediates == seq![0x3eu8] && final_byte == 'c' {
        ActionOf::SecondaryDeviceAttributes
    } else if intermediates == seq![0x20u8] && final_byte == 'q' {
        cursor_style_spec(numbers)
    } else if final_byte == '@' {
        ActionOf::InsertBlankChars(first_or_default_spec(numbers, 1))
    } else if final_byte == 'A' {
        ActionOf::CursorUp(first_or_default_spec(numbers, 1))
    } else if final_byte == 'B' {
        ActionOf::CursorDown(first_or_default_spec(numbers, 1))
    } else if final_byte == 'C' {
        ActionOf::CursorRight(first_or_default_spec(numbers, 1))
    } else if final_byte == 'D' {
        ActionOf::CursorLeft(first_or_default_spec(numbers, 1))
    } else if final_byte == 'c' {
        ActionOf::PrimaryDeviceAttributes
    } else if final_byte == 'G' {
        ActionOf::CursorColumn(minus_one(first_or_default_spec(numbers, 1)))
    } else if final_byte == 'H' || final_byte == 'f' {
        ActionOf::CursorPosition {
            row: minus_one(first_or_default_spec(numbers, 1)),
            col: minus_one(nth_or_spec(numbers, 1, 1)),
        }
    } else if final_byte == 'J' {
        let n = first_or_default_spec(numbers, 0);
        if n == 0 {
            ActionOf::ClearScreen(ScreenClearMode::FromCursor)
        } else if n == 1 {
            ActionOf::ClearScreen(ScreenClearMode::ToCursor)
        } else if n == 2 || n == 3 {
            ActionOf::ClearScreen(ScreenClearMode::Entire)
        } else {
            ActionOf::Ignore
        }
    } else if final_byte == 'K' {
        let n = first_or_default_spec(numbers, 0);
        if n == 0 {
            ActionOf::ClearLine(LineClearMode::FromCursor)
        } else if n == 1 {
            ActionOf::ClearLine(LineClearMode::ToCursor)
        } else if n == 2 {
            ActionOf::ClearLine(LineClearMode::Entire)
        } else {
            ActionOf::Ignore
        }
    } else if final_byte == 'L' {
        ActionOf::InsertLines(first_or_default_spec(numbers, 1))
    } else if final_byte == 'M' {
        ActionOf::DeleteLines(first_or_default_spec(numbers, 1))
    } else if final_byte == 'n' {
        let n = first_or_default_spec(numbers, 0);
        if n == 5 {
            ActionOf::DeviceStatusReport
        } else if n == 6 {
            ActionOf::CursorPositionReport
        } else {
            ActionOf::Ignore
        }
    } else if final_byte == 'P' {
        ActionOf::DeleteChars(first_or_default_spec(numbers, 1))
    } else if final_byte == 'X' {
        ActionOf::EraseChars(first_or_default_spec(numbers, 1))
    } else if final_byte == 'r' {
        scroll_region_spec(numbers)
    } else if final_byte == 's' {
        ActionOf::SaveCursor
    } else if final_byte == 'u' {
        ActionOf::RestoreCursor
    } else if final_byte == 'm' {
        ActionOf::SetGraphicRendition(numbers)
    } else {
        ActionOf::Ignore
    }
}

/// The numeric value of each parameter: its first sub-parameter, or 0.
pub open spec fn param_numbers(params: Seq<Seq<u16>>) -> Seq<usize> {
    Seq::new(params.len(), |i: int| if params[i].len() > 0 { params[i][0] as usize } else { 0usize })
}

pub fn first_or_default(numbers: &[usize], default: usize) -> (n: usize)
    ensures
        n == first_or_default_spec(numbers@, default),
{
    if numbers.len() == 0 || numbers[0] == 0 {
        default
    } else {
        numbers[0]
    }
}

fn nth_or(numbers: &[usize], index: usize, default: usize) -> (n: usize)
    ensures
        n == nth_or_spec(numbers@, index as int, default),
{
    if index < numbers.len() {
        numbers[index]
    } else {
        default
    }
}

pub fn contains_any(numbers: &[usize], targets: &[usize]) -> (b: bool)
    ensures
        b == contains_any_spec(numbers@, targets@),
{
    let mut i: usize = 0;
    while i < numbers.len()
        invariant
            i <= numbers@.len(),
            forall|k: int| 0 <= k < i ==> !targets@.contains(#[trigger] numbers@[k]),
        decreases numbers@.len() - i,
    {
        let mut j: usize = 0;
        while j < targets.len()
            invariant
                j <= targets@.len(),
                i < numbers@.len(),
                forall|k: int| 0 <= k < j ==> targets@[k] != numbers@[i as int],
            decreases targets@.len() - j,
        {
            if targets[j] == numbers[i] {
                assert(targets@.contains(numbers@[i as int]));
                return true;
            }
            j += 1;
        }
        i += 1;
    }
    false
}

pub fn parse_cursor_style(numbers: &[usize]) -> (a: Action)
    ensures
        action_view(a) == cursor_style_spec(numbers@),
{
    let n = first_or_default(numbers, 0);
    if n <= 2 {
        ActionOf::SetCursorStyle(CursorStyle::Block)
    } else if n <= 4 {
        ActionOf::SetCursorStyle(CursorStyle::Underline)
    } else if n <= 6 {
        ActionOf::SetCursorStyle(CursorStyle::Bar)
    } else {
        ActionOf::Ignore
    }
}

pub fn parse_scroll_region(numbers: &[usize]) -> (a: Action)
    ensures
        action_view(a) == scroll_region_spec(numbers@),
{
    if numbers.len() == 0 {
        return ActionOf::SetScrollRegion(None);
    }
    let top = first_or_default(numbers, 1).saturating_sub(1);
    let bottom = nth_or(numbers, 1, 0).saturating_sub(1);
    if bottom <= top {
        ActionOf::Ignore
    } else {
        ActionOf::SetScrollRegion(Some((top, bottom)))
    }
}

pub fn parse_private_csi(numbers: &[usize], final_byte: char) -> (a: Action)
    ensures
        action_view(a) == private_csi_spec(numbers@, final_byte),
{
    if final_byte != 'h' && final_byte != 'l' {
        return ActionOf::Ignore;
    }
    let on = final_byte == 'h';
    let cursor_keys: [usize; 1] = [1];
    let visible: [usize; 1] = [25];
    let alternate: [usize; 3] = [47, 1047, 1049];
    let paste: [usize; 1] = [2004];
    let mouse: [usize; 3] = [1000, 1002, 1003];
    let sgr: [usize; 1] = [1006];
    assert(cursor_keys@ == seq![1usize]);
    assert(visible@ == seq![25usize]);
    assert(alternate@ == seq![47usize, 1047, 1049]);
    assert(paste@ == seq![2004usize]);
    assert(mouse@ == seq![1000usize, 1002, 1003]);
    assert(sgr@ == seq![1006usize]);
    if contains_any(numbers, &cursor_keys) {
        ActionOf::SetApplicationCursorKeys(on)
    } else if contains_any(numbers, &visible) {
        ActionOf::SetCursorVisible(on)
    } else if contains_any(numbers, &alternate) {
        if on {
            ActionOf::EnterAlternateScreen
        } else {
            ActionOf::ExitAlternateScreen
        }
    } else if contains_any(numbers, &paste) {
        ActionOf::SetBracketedPaste(on)
    } else if contains_any(numbers, &mouse) {
        ActionOf::SetMouseReporting(on)
    } else if contains_any(numbers, &sgr) {
        ActionOf::SetSgrMouse(on)
    } else {
        ActionOf::Ignore
    }
}

pub fn parse_csi(numbers: &[usize], intermediates: &[u8], final_byte: char) -> (a: Action)
    ensures
        action_view(a) == csi_action_spec(numbers@, intermediates@, final_byte),
{
    if intermediates.len() == 1 && intermediates[0] == 0x3f {
        assert(intermediates@ == seq![0x3fu8]);
        return parse_private_csi(numbers, final_byte);
    }
    if intermediates.len() == 1 && intermediates[0] == 0x3e && final_byte == 'c' {
        assert(intermediates@ == seq![0x3eu8]);
        return ActionOf::SecondaryDeviceAttributes;
    }
    if intermediates.len() == 1 && intermediates[0] == 0x20 && final_byte == 'q' {
        assert(intermediates@ == seq![0x20u8]);
        return parse_cursor_style(numbers);
    }
    assert(intermediates@ != seq![0x3fu8] || !(intermediates@.len() == 1 && intermediates@[0] == 0x3f));
    match final_byte {
        '@' => ActionOf::InsertBlankChars(first_or_default(numbers, 1)),
        'A' => ActionOf::CursorUp(first_or_default(numbers, 1)),
        'B' => ActionOf::CursorDown(first_or_default(numbers, 1)),
        'C' => ActionOf::CursorRight(first_or_default(numbers, 1)),
        'D' => ActionOf::CursorLeft(first_or_default(numbers, 1)),
        'c' => ActionOf::PrimaryDeviceAttributes,
        'G' => ActionOf::CursorColumn(first_or_default(numbers, 1).saturating_sub(1)),
        'H' | 'f' => ActionOf::CursorPosition {
            row: first_or_default(numbers, 1).saturating_sub(1),
            col: nth_or(numbers, 1, 1).saturating_sub(1),
        },
        'J' => match first_or_default(numbers, 0) {
            0 => ActionOf::ClearScreen(ScreenClearMode::FromCursor),
            1 => ActionOf::ClearScreen(ScreenClearMode::ToCursor),
            2 | 3 => ActionOf::ClearScreen(ScreenClearMode::Entire),
            _ => ActionOf::Ignore,
        },
        'K' => match first_or_default(numbers, 0) {
            0 => ActionOf::ClearLine(LineClearMode::FromCursor),
            1 => ActionOf::ClearLine(LineClearMode::ToCursor),
            2 => ActionOf::ClearLine(LineClearMode::Entire),
            _ => ActionOf::Ignore,
        },
        'L' => ActionOf::InsertLines(first_or_default(numbers, 1)),
        'M' => ActionOf::DeleteLines(first_or_default(numbers, 1)),
        'n' => match first_or_default(numbers, 0) {
            5 => ActionOf::DeviceStatusReport,
            6 => ActionOf::CursorPositionReport,
            _ => ActionOf::Ignore,
        },
        'P' => ActionOf::DeleteChars(first_or_default(numbers, 1)),
        'X' => ActionOf::EraseChars(first_or_default(numbers, 1)),
        'r' => parse_scroll_region(numbers),
        's' => ActionOf::SaveCursor,
        'u' => ActionOf::RestoreCursor,
        'm' => ActionOf::SetGraphicRendition(vstd::slice::slice_to_vec(numbers)),
        _ => ActionOf::Ignore,
    }
}

/// The numeric value of each parameter group: its first entry, or 0.
pub fn params_to_numbers(params: &[Vec<u16>]) -> (numbers: Vec<usize>)
    ensures
        numbers@ == param_numbers(params@.map_values(|p: Vec<u16>| p@)),
{
    let mut numbers: Vec<usize> = Vec::new();
    let mut i: usize = 0;
    while i < params.len()
        invariant
            i <= params@.len(),
            numbers@.len() == i,
            forall|k: int| 0 <= k < i ==> #[trigger] numbers@[k] == (if params@[k]@.len() > 0 { params@[k]@[0] as usize } else { 0usize }),
        decreases params@.len() - i,
    {
        let n: usize = if params[i].len() > 0 { params[i][0] as usize } else { 0 };
        numbers.push(n);
        i += 1;
    }
    assert(numbers@ =~= param_numbers(params@.map_values(|p: Vec<u16>| p@)));
    numbers
}

/// What the standard base64 alphabet (with padding) decodes `input` to,
/// or `None` when `input` is not valid base64.
pub uninterp spec fn base64_standard_decode(input: Seq<u8>) -> Option<Seq<u8>>;

/// Decodes standard base64.
///
/// Trusted: calls `base64::engine::general_purpose::STANDARD.decode`; the
/// contract only names its result, which depends on the input alone.
#[verifier::external_body]
fn base64_decode(input: &[u8]) -> (r: Option<Vec<u8>>)
    ensures
        match r {
            Some(v) => base64_standard_decode(input@) == Some(v@),
            None => base64_standard_decode(input@) is None,
        },
{
    match STANDARD.decode(input) {
        Ok(bytes) => Some(bytes),
        Err(_) => None,
    }
}

/// Decodes UTF-8 into a `String`.
///
/// Trusted: calls `std::str::from_utf8`, which accepts exactly the valid
/// UTF-8 byte strings and decodes them; the contract states that with
/// vstd's UTF-8 definitions.
#[verifier::external_body]
pub(crate) fn utf8_to_string(bytes: &[u8]) -> (r: Option<String>)
    ensures
        r is Some <==> valid_utf8(bytes@),
        r matches Some(s) ==> s@ == decode_utf8(bytes@),
{
    match std::str::from_utf8(bytes) {
        Ok(text) => Some(text.to_string()),
        Err(_) => None,
    }
}

/// A text action from UTF-8 bytes of bounded, non-zero length.
pub open spec fn bounded_text(bytes: Seq<u8>, max: usize) -> Option<Seq<char>> {
    if bytes.len() == 0 || bytes.len() > max || !valid_utf8(bytes) {
        None
    } else {
        Some(decode_utf8(bytes))
    }
}

/// OSC 0 or 2: set the window title.
pub open spec fn osc_title_spec(title: Seq<u8>) -> ActionView {
    match bounded_text(title, MAX_OSC_TITLE_BYTES) {
        Some(t) => ActionOf::SetWindowTitle(t),
        None => ActionOf::Ignore,
    }
}

/// OSC 52 with `?`: a clipboard read, which is refused.
pub open spec fn osc52_query_spec(selector: Seq<u8>) -> ActionView {
    match bounded_text(selector, MAX_OSC52_SELECTOR_BYTES) {
        Some(t) => ActionOf::ClipboardQueryDenied(t),
        None => ActionOf::Ignore,
    }
}

/// OSC 52 with a payload: the clipboard text, given what the payload
/// decodes to, when that is valid UTF-8 of at most the allowed size.
pub open spec fn clipboard_spec(decoded: Option<Seq<u8>>) -> ActionView {
    match decoded {
        None => ActionOf::Ignore,
        Some(bytes) => if bytes.len() > MAX_OSC52_DECODED_BYTES || !valid_utf8(bytes) {
            ActionOf::Ignore
        } else {
            ActionOf::SetClipboard(decode_utf8(bytes))
        },
    }
}

/// An operating system command (OSC) by its `;`-separated parameters.
pub open spec fn osc_spec(params: Seq<Seq<u8>>) -> ActionView {
    if params.len() >= 2 && (params[0] == seq![0x30u8] || params[0] == seq![0x32u8]) {
        osc_title_spec(params[1])
    } else if params.len() < 3 || params[0] != seq![0x35u8, 0x32u8] {
        ActionOf::Ignore
    } else if params[2] == seq![0x3fu8] {
        osc52_query_spec(params[1])
    } else if params[2].len() > 2 * MAX_OSC52_DECODED_BYTES {
        ActionOf::Ignore
    } else {
        clipboard_spec(base64_standard_decode(params[2]))
    }
}

pub open spec fn option_bytes_view(v: Option<Vec<u8>>) -> Option<Seq<u8>> {
    match v {
        Some(v) => Some(v@),
        None => None,
    }
}

pub fn parse_osc_title(title: &[u8]) -> (a: Action)
    ensures
        action_view(a) == osc_title_spec(title@),
{
    if title.len() == 0 || title.len() > MAX_OSC_TITLE_BYTES {
        return ActionOf::Ignore;
    }
    match utf8_to_string(title) {
        Some(text) => ActionOf::SetWindowTitle(text),
        None => ActionOf::Ignore,
    }
}

pub fn parse_osc52_query(selector: &[u8]) -> (a: Action)
    ensures
        action_view(a) == osc52_query_spec(selector@),
{
    if selector.len() == 0 || selector.len() > MAX_OSC52_SELECTOR_BYTES {
        return ActionOf::Ignore;
    }
    match utf8_to_string(selector) {
        Some(text) => ActionOf::ClipboardQueryDenied(text),
        None => ActionOf::Ignore,
    }
}

/// The clipboard action for a decoded OSC 52 payload.
pub fn clipboard_action(decoded: Option<Vec<u8>>) -> (a: Action)
    ensures
        action_view(a) == clipboard_spec(option_bytes_view(decoded)),
{
    let Some(bytes) = decoded else {
        return ActionOf::Ignore;
    };
    if bytes.len() > MAX_OSC52_DECODED_BYTES {
        return ActionOf::Ignore;
    }
    match utf8_to_string(bytes.as_slice()) {
        Some(text) => ActionOf::SetClipboard(text),
        None => ActionOf::Ignore,
    }
}

fn bytes_equal(a: &[u8], b: &[u8]) -> (r: bool)
    ensures
        r == (a@ == b@),
{
    if a.len() != b.len() {
        return false;
    }
    let mut i: usize = 0;
    while i < a.len()
        invariant
            a@.len() == b@.len(),
            i <= a@.len(),
            forall|k: int| 0 <= k < i ==> a@[k] == b@[k],
        decreases a@.len() - i,
    {
        if a[i] != b[i] {
            return false;
        }
        i += 1;
    }
    assert(a@ =~= b@);
    true
}

pub fn parse_osc(params: &[Vec<u8>]) -> (a: Action)
    ensures
        action_view(a) == osc_spec(params@.map_values(|p: Vec<u8>| p@)),
{
    let ghost ps = params@.map_values(|p: Vec<u8>| p@);
    let zero: [u8; 1] = [0x30];
    let two: [u8; 1] = [0x32];
    let fifty_two: [u8; 2] = [0x35, 0x32];
    let question: [u8; 1] = [0x3f];
    assert(zero@ == seq![0x30u8]);
    assert(two@ == seq![0x32u8]);
    assert(fifty_two@ == seq![0x35u8, 0x32u8]);
    assert(question@ == seq![0x3fu8]);
    if params.len() >= 2 && (bytes_equal(params[0].as_slice(), &zero) || bytes_equal(params[0].as_slice(), &two)) {
        return parse_osc_title(params[1].as_slice());
    }
    if params.len() < 3 || !bytes_equal(params[0].as_slice(), &fifty_two) {
        return ActionOf::Ignore;
    }
    let payload = params[2].as_slice();
    if bytes_equal(payload, &question) {
        return parse_osc52_query(params[1].as_slice());
    }
    if payload.len() > MAX_OSC52_DECODED_BYTES * 2 {
        return ActionOf::Ignore;
    }
    clipboard_action(base64_decode(payload))
}

/// An extended color after `38` or `48`: `5;n` is palette entry `n`,
/// `2;r;g;b` a direct color (values past 255 are clamped); the second
/// component is how many numbers it consumed.
pub open spec fn extended_color_spec(numbers: Seq<usize>) -> Option<(Color, int)> {
    if numbers.len() >= 2 && numbers[0] == 5 {
        Some((Color::Indexed(clamp_u8(numbers[1])), 2))
    } else if numbers.len() >= 4 && numbers[0] == 2 {
        Some((Color::Rgb(clamp_u8(numbers[1]), clamp_u8(numbers[2]), clamp_u8(numbers[3])), 4))
    } else {
        None
    }
}

pub open spec fn clamp_u8(n: usize) -> u8 {
    if n > 255 {
        255
    } else {
        n as u8
    }
}

/// The effect of the SGR number at `index`, and how many numbers after it
/// it consumed.
pub open spec fn sgr_one(style: Style, numbers: Seq<usize>, index: int) -> (Style, int) {
    let n = numbers[index];
    if n == 0 {
        (plain_style(), 0)
    } else if n == 1 {
        (Style { bold: true, ..style }, 0)
    } else if n == 3 {
        (Style { italic: true, ..style }, 0)
    } else if n == 4 {
        (Style { underline: true, ..style }, 0)
    } else if n == 7 {
        (Style { inverse: true, ..style }, 0)
    } else if n == 22 {
        (Style { bold: false, ..style }, 0)
    } else if n == 23 {
        (Style { italic: false, ..style }, 0)
    } else if n == 24 {
        (Style { underline: false, ..style }, 0)
    } else if n == 27 {
        (Style { inverse: false, ..style }, 0)
    } else if 30 <= n <= 37 {
        (Style { foreground: Some(Color::Indexed((n - 30) as u8)), ..style }, 0)
    } else if n == 39 {
        (Style { foreground: None, ..style }, 0)
    } else if 40 <= n <= 47 {
        (Style { background: Some(Color::Indexed((n - 40) as u8)), ..style }, 0)
    } else if n == 49 {
        (Style { background: None, ..style }, 0)
    } else if 90 <= n <= 97 {
        (Style { foreground: Some(Color::Indexed((n - 90 + 8) as u8)), ..style }, 0)
    } else if 100 <= n <= 107 {
        (Style { background: Some(Color::Indexed((n - 100 + 8) as u8)), ..style }, 0)
    } else if n == 38 || n == 48 {
        match extended_color_spec(numbers.skip(index + 1)) {
            Some((color, consumed)) => if n == 38 {
                (Style { foreground: Some(color), ..style }, consumed)
            } else {
                (Style { background: Some(color), ..style }, consumed)
            },
            None => (style, 0),
        }
    } else {
        (style, 0)
    }
}

/// The SGR numbers from `index` on, applied left to right.
pub open spec fn sgr_from(style: Style, numbers: Seq<usize>, index: int) -> Style
    decreases numbers.len() - index,
{
    if index < 0 || index >= numbers.len() {
        style
    } else {
        let (next, consumed) = sgr_one(style, numbers, index);
        if consumed < 0 {
            next
        } else {
            sgr_from(next, numbers, index + consumed + 1)
        }
    }
}

/// SGR: the style after a select-graphic-rendition sequence; no numbers
/// means a reset.
pub open spec fn apply_sgr_spec(style: Style, numbers: Seq<usize>) -> Style {
    if numbers.len() == 0 {
        plain_style()
    } else {
        sgr_from(style, numbers, 0)
    }
}

pub fn parse_extended_color(numbers: &[usize], from: usize) -> (r: Option<(Color, usize)>)
    requires
        from <= numbers@.len(),
    ensures
        match r {
            Some((c, k)) => extended_color_spec(numbers@.skip(from as int)) == Some((c, k as int)),
            None => extended_color_spec(numbers@.skip(from as int)) is None,
        },
{
    let rest = numbers.len() - from;
    if rest >= 2 && numbers[from] == 5 {
        let c = numbers[from + 1];
        Some((Color::Indexed(if c > 255 { 255 } else { c as u8 }), 2))
    } else if rest >= 4 && numbers[from] == 2 {
        let r = numbers[from + 1];
        let g = numbers[from + 2];
        let b = numbers[from + 3];
        Some((
            Color::Rgb(
                if r > 255 { 255 } else { r as u8 },
                if g > 255 { 255 } else { g as u8 },
                if b > 255 { 255 } else { b as u8 },
            ),
            4,
        ))
    } else {
        None
    }
}

/// Applies SGR numbers to a style.
pub fn apply_sgr(style: &mut Style, numbers: &[usize])
    ensures
        *final(style) == apply_sgr_spec(*old(style), numbers@),
{
    if numbers.len() == 0 {
        style.reset();
        return;
    }
    let mut index: usize = 0;
    while index < numbers.len()
        invariant
            numbers@.len() > 0,
            index <= numbers@.len() + 4,
            apply_sgr_spec(*old(style), numbers@) == sgr_from(*style, numbers@, index as int),
        decreases numbers@.len() + 4 - index,
    {
        let n = numbers[index];
        let mut consumed: usize = 0;
        if n == 0 {
            style.reset();
        } else if n == 1 {
            style.bold = true;
        } else if n == 3 {
            style.italic = true;
        } else if n == 4 {
            style.underline = true;
        } else if n == 7 {
            style.inverse = true;
        } else if n == 22 {
            style.bold = false;
        } else if n == 23 {
            style.italic = false;
        } else if n == 24 {
            style.underline = false;
        } else if n == 27 {
            style.inverse = false;
        } else if 30 <= n && n <= 37 {
            style.set_foreground(Some(Color::Indexed((n - 30) as u8)));
        } else if n == 39 {
            style.set_foreground(None);
        } else if 40 <= n && n <= 47 {
            style.set_background(Some(Color::Indexed((n - 40) as u8)));
        } else if n == 49 {
            style.set_background(None);
        } else if 90 <= n && n <= 97 {
            style.set_foreground(Some(Color::Indexed((n - 90 + 8) as u8)));
        } else if 100 <= n && n <= 107 {
            style.set_background(Some(Color::Indexed((n - 100 + 8) as u8)));
        } else if n == 38 || n == 48 {
            if let Some((color, k)) = parse_extended_color(numbers, index + 1) {
                if n == 38 {
                    style.set_foreground(Some(color));
                } else {
                    style.set_background(Some(color));
                }
                consumed = k;
            }
        }
        index = index + consumed + 1;
    }
}

/// A parse event of the VT escape-sequence state machine, with its data
/// copied out.
#[derive(Clone, Debug, PartialEq, Eq)]
pub enum VteEvent {
    Print(char),
    Execute(u8),
    CsiDispatch { params: Vec<Vec<u16>>, intermediates: Vec<u8>, ignore: bool, action: char },
    EscDispatch { intermediates: Vec<u8>, ignore: bool, byte: u8 },
    OscDispatch { params: Vec<Vec<u8>>, bell_terminated: bool },
}

/// The content of a parse event.
pub enum VtEventView {
    Print(char),
    Execute(u8),
    CsiDispatch { params: Seq<Seq<u16>>, intermediates: Seq<u8>, ignore: bool, action: char },
    EscDispatch { intermediates: Seq<u8>, ignore: bool, byte: u8 },
    OscDispatch { params: Seq<Seq<u8>>, bell_terminated: bool },
}

/// The content of a parse event, its byte strings taken by their views.
pub open spec fn event_view(event: VteEvent) -> VtEventView {
    match event {
        VteEvent::Print(ch) => VtEventView::Print(ch),
        VteEvent::Execute(byte) => VtEventView::Execute(byte),
        VteEvent::CsiDispatch { params, intermediates, ignore, action } => VtEventView::CsiDispatch {
            params: params@.map_values(|p: Vec<u16>| p@),
            intermediates: intermediates@,
            ignore,
            action,
        },
        VteEvent::EscDispatch { intermediates, ignore, byte } => VtEventView::EscDispatch {
            intermediates: intermediates@,
            ignore,
            byte,
        },
        VteEvent::OscDispatch { params, bell_terminated } => VtEventView::OscDispatch {
            params: params@.map_values(|p: Vec<u8>| p@),
            bell_terminated,
        },
    }
}

/// The contents of parse events, in order.
pub open spec fn events_view(events: Seq<VteEvent>) -> Seq<VtEventView> {
    events.map_values(|e: VteEvent| event_view(e))
}

/// What one parse event does to the character set state and which action,
/// if any, it produces.
pub open spec fn event_step(cs: CharsetState, event: VtEventView) -> (CharsetState, Option<ActionView>) {
    match event {
        VtEventView::Print(ch) => {
            let (next, action) = print_spec(cs, ch);
            (next, Some(action))
        },
        VtEventView::Execute(byte) => execute_spec(cs, byte),
        VtEventView::CsiDispatch { params, intermediates, ignore, action } => {
            if ignore {
                (cs, Some(ActionOf::Ignore))
            } else {
                (cs, Some(csi_action_spec(param_numbers(params), intermediates, action)))
            }
        },
        VtEventView::EscDispatch { intermediates, ignore, byte } => esc_spec(cs, intermediates, ignore, byte),
        VtEventView::OscDispatch { params, bell_terminated } => (cs, Some(osc_spec(params))),
    }
}

/// A sequence of parse events, in order: the final character set state and
/// the actions produced.
pub open spec fn run_events(cs: CharsetState, events: Seq<VtEventView>) -> (CharsetState, Seq<ActionView>)
    decreases events.len(),
{
    if events.len() == 0 {
        (cs, Seq::empty())
    } else {
        let (before, actions) = run_events(cs, events.drop_last());
        let (after, action) = event_step(before, events.last());
        match action {
            Some(a) => (after, actions.push(a)),
            None => (after, actions),
        }
    }
}

/// Running events in two pieces is running them at once.
pub proof fn run_events_in_pieces(cs: CharsetState, a: Seq<VtEventView>, b: Seq<VtEventView>)
    ensures
        run_events(cs, a + b) == ({
            let (mid, first) = run_events(cs, a);
            let (end, second) = run_events(mid, b);
            (end, first + second)
        }),
    decreases b.len(),
{
    if b.len() == 0 {
        assert(a + b == a);
        let (mid, first) = run_events(cs, a);
        assert(first + Seq::<ActionView>::empty() == first);
    } else {
        run_events_in_pieces(cs, a, b.drop_last());
        assert((a + b).drop_last() == a + b.drop_last());
        assert((a + b).last() == b.last());
        let (mid, first) = run_events(cs, a);
        let (m2, second) = run_events(mid, b.drop_last());
        let (after, action) = event_step(m2, b.last());
        match action {
            Some(x) => {
                assert(first + second.push(x) == (first + second).push(x));
            },
            None => {},
        }
    }
}

/// Handles one parse event.
pub fn handle_event(cs: &mut CharsetState, event: &VteEvent) -> (a: Option<Action>)
    ensures
        (*final(cs), option_action_view(a)) == event_step(*old(cs), event_view(*event)),
{
    match event {
        VteEvent::Print(ch) => Some(print_char(cs, *ch)),
        VteEvent::Execute(byte) => execute_byte(cs, *byte),
        VteEvent::CsiDispatch { params, intermediates, ignore, action } => {
            if *ignore {
                Some(ActionOf::Ignore)
            } else {
                let numbers = params_to_numbers(params.as_slice());
                Some(parse_csi(numbers.as_slice(), intermediates.as_slice(), *action))
            }
        },
        VteEvent::EscDispatch { intermediates, ignore, byte } => esc_dispatch(cs, intermediates.as_slice(), *ignore, *byte),
        VteEvent::OscDispatch { params, bell_terminated: _ } => Some(parse_osc(params.as_slice())),
    }
}

/// Handles parse events in order.
pub fn handle_events(cs: &mut CharsetState, events: &[VteEvent]) -> (actions: Vec<Action>)
    ensures
        (*final(cs), actions_view(actions@)) == run_events(*old(cs), events_view(events@)),
{
    let mut actions: Vec<Action> = Vec::new();
    let mut i: usize = 0;
    while i < events.len()
        invariant
            i <= events@.len(),
            (*cs, actions_view(actions@)) == run_events(*old(cs), events_view(events@.take(i as int))),
        decreases events@.len() - i,
    {
        let ghost before = actions_view(actions@);
        assert(events_view(events@.take(i + 1)).drop_last() == events_view(events@.take(i as int)));
        assert(events_view(events@.take(i + 1)).last() == event_view(events@[i as int]));
        match handle_event(cs, &events[i]) {
            Some(a) => {
                actions.push(a);
                assert(actions_view(actions@) =~= before.push(action_view(a)));
            },
            None => {},
        }
        i += 1;
    }
    assert(events@.take(i as int) == events@);
    actions
}

/// Collects the parse events that the VT state machine reports.
pub struct EventSink {
    pub events: Vec<VteEvent>,
}

impl vte::Perform for EventSink {
    fn print(&mut self, c: char)
        ensures
            final(self).events@ == old(self).events@.push(VteEvent::Print(c)),
    {
        self.events.push(VteEvent::Print(c));
    }

    fn execute(&mut self, byte: u8)
        ensures
            final(self).events@ == old(self).events@.push(VteEvent::Execute(byte)),
    {
        self.events.push(VteEvent::Execute(byte));
    }

    fn csi_dispatch(&mut self, params: &vte::Params, intermediates: &[u8], ignore: bool, action: char)
        ensures
            final(self).events@.len() == old(self).events@.len() + 1,
            final(self).events@.drop_last() == old(self).events@,
            final(self).events@.last() matches VteEvent::CsiDispatch { params: _, intermediates: i, ignore: g, action: a }
                && i@ == intermediates@ && g == ignore && a == action,
    {
        let params = param_groups(params);
        self.events.push(
            VteEvent::CsiDispatch {
                params,
                intermediates: vstd::slice::slice_to_vec(intermediates),
                ignore,
                action,
            },
        );
        assert(self.events@.drop_last() =~= old(self).events@);
    }

    fn esc_dispatch(&mut self, intermediates: &[u8], ignore: bool, byte: u8)
        ensures
            final(self).events@.len() == old(self).events@.len() + 1,
            final(self).events@.drop_last() == old(self).events@,
            final(self).events@.last() matches VteEvent::EscDispatch { intermediates: i, ignore: g, byte: b }
                && i@ == intermediates@ && g == ignore && b == byte,
    {
        self.events.push(
            VteEvent::EscDispatch { intermediates: vstd::slice::slice_to_vec(intermediates), ignore, byte },
        );
        assert(self.events@.drop_last() =~= old(self).events@);
    }

    fn osc_dispatch(&mut self, params: &[&[u8]], bell_terminated: bool)
        ensures
            final(self).events@.len() == old(self).events@.len() + 1,
            final(self).events@.drop_last() == old(self).events@,
            final(self).events@.last() matches VteEvent::OscDispatch { params: p, bell_terminated: b }
                && p@.map_values(|v: Vec<u8>| v@) == params@.map_values(|q: &[u8]| q@) && b == bell_terminated,
    {
        let mut owned: Vec<Vec<u8>> = Vec::new();
        let mut i: usize = 0;
        while i < params.len()
            invariant
                i <= params@.len(),
                owned@.len() == i,
                forall|k: int| 0 <= k < i ==> #[trigger] owned@[k]@ == params@[k]@,
            decreases params@.len() - i,
        {
            let copy = vstd::slice::slice_to_vec(params[i]);
            assert(copy@ == params@[i as int]@);
            owned.push(copy);
            i += 1;
        }
        assert(owned@.map_values(|v: Vec<u8>| v@) =~= params@.map_values(|q: &[u8]| q@));
        self.events.push(VteEvent::OscDispatch { params: owned, bell_terminated });
        assert(self.events@.drop_last() =~= old(self).events@);
    }
}

#[verifier::external_type_specification]
#[verifier::external_body]
pub struct ExVteParser<const OSC_RAW_BUF_SIZE: usize>(vte::Parser<OSC_RAW_BUF_SIZE>);

#[verifier::external_type_specification]
#[verifier::external_body]
pub struct ExVteParams(vte::Params);

/// The parameter groups of a control sequence, each with its sub-parameters.
///
/// Trusted: calls `vte::Params::iter` and copies each group out; nothing is
/// stated of the values.
#[verifier::external_body]
fn param_groups(params: &vte::Params) -> (groups: Vec<Vec<u16>>) {
    params.iter().map(|group| group.to_vec()).collect()
}

/// A VT parser in the ground state.
///
/// Trusted: calls `vte::Parser::new`; nothing is stated of the opaque result.
#[verifier::external_body]
fn new_vte_parser() -> vte::Parser {
    vte::Parser::new()
}

/// The parse events that the VT state machine reports when it is fed the
/// pieces `chunks` in order, one `advance` call each, from its ground state.
/// Where the stream is split matters: a UTF-8 character split across calls
/// is decoded, while one whole inside a call may take vte's faster path.
pub uninterp spec fn vt_events(chunks: Seq<Seq<u8>>) -> Seq<VtEventView>;

/// The events reported for the pieces that extend `before` to `after`.
pub open spec fn new_events(before: Seq<Seq<u8>>, after: Seq<Seq<u8>>) -> Seq<VtEventView> {
    vt_events(after).skip(vt_events(before).len() as int)
}

/// Whether the events of the pieces `after` begin with those of `before`.
pub open spec fn events_extend(before: Seq<Seq<u8>>, after: Seq<Seq<u8>>) -> bool {
    &&& vt_events(before).len() <= vt_events(after).len()
    &&& vt_events(after).take(vt_events(before).len() as int) == vt_events(before)
}

/// The VT state machine together with the pieces of input it has been fed
/// since it was made, one per call, which decide its hidden state.
pub struct VtMachine {
    parser: vte::Parser,
    fed: Ghost<Seq<Seq<u8>>>,
}

impl VtMachine {
    /// The pieces fed so far, in order.
    pub closed spec fn fed(&self) -> Seq<Seq<u8>> {
        self.fed@
    }

    /// A machine in the ground state, fed nothing.
    pub fn new() -> (m: VtMachine)
        ensures
            m.fed() == Seq::<Seq<u8>>::empty(),
    {
        VtMachine { parser: new_vte_parser(), fed: Ghost(Seq::empty()) }
    }
}

/// Runs the VT state machine over `bytes` and returns the events it reports.
///
/// Trusted: calls `vte::Parser::advance` with an `EventSink`. vte's parser
/// reports events through the sink as it reads and keeps the rest of a
/// sequence for the next call, so what it reports depends on the pieces fed
/// since `vte::Parser::new`, each call's bytes as one piece. The contract says
/// so through the name `vt_events`: `bytes` joins the pieces fed, the events
/// reported before stay a prefix (vte never takes an event back), and the
/// result is the events that the new piece adds. The ghost record of the
/// pieces has no run-time presence; the body leaves it to this contract.
#[verifier::external_body]
fn vte_advance(machine: &mut VtMachine, bytes: &[u8]) -> (events: Vec<VteEvent>)
    ensures
        final(machine).fed() == old(machine).fed().push(bytes@),
        vt_events(old(machine).fed()).len() <= vt_events(final(machine).fed()).len(),
        vt_events(final(machine).fed()).take(vt_events(old(machine).fed()).len() as int) == vt_events(
            old(machine).fed(),
        ),
        events_view(events@) == new_events(old(machine).fed(), final(machine).fed()),
{
    let mut sink = EventSink { events: Vec::new() };
    machine.parser.advance(&mut sink, bytes);
    sink.events
}

/// The UTF-8 encoding of one character.
fn char_utf8(ch: char) -> (bytes: Vec<u8>)
    ensures
        bytes@ == encode_utf8(seq![ch]),
{
    let v = ch as u32;
    proof {
        assert(seq![ch].drop_first() =~= Seq::<char>::empty());
        assert(encode_utf8(seq![ch]) == encode_scalar(v) + encode_utf8(Seq::<char>::empty()));
        assert(encode_utf8(seq![ch]) =~= encode_scalar(v));
    }
    let mut out: Vec<u8> = Vec::new();
    if v <= 0x7f {
        out.push((v & 0x7f) as u8);
    } else if v <= 0x7ff {
        out.push(0xc0 | ((v >> 6) & 0x1f) as u8);
        out.push(0x80 | (v & 0x3f) as u8);
    } else if v <= 0xffff {
        out.push(0xe0 | ((v >> 12) & 0x0f) as u8);
        out.push(0x80 | ((v >> 6) & 0x3f) as u8);
        out.push(0x80 | (v & 0x3f) as u8);
    } else {
        out.push(0xf0 | ((v >> 18) & 0x7) as u8);
        out.push(0x80 | ((v >> 12) & 0x3f) as u8);
        out.push(0x80 | ((v >> 6) & 0x3f) as u8);
        out.push(0x80 | (v & 0x3f) as u8);
    }
    assert(out@ =~= encode_scalar(v));
    out
}

/// Escape-sequence parser: the VT state machine plus the character set
/// state that turns its events into terminal actions.
pub struct EscapeParser {
    vte: VtMachine,
    charsets: CharsetState,
}

impl EscapeParser {
    /// The character set state.
    pub closed spec fn charset_state(&self) -> CharsetState {
        self.charsets
    }

    /// The pieces of input fed so far, one per call.
    pub closed spec fn fed(&self) -> Seq<Seq<u8>> {
        self.vte.fed()
    }

    pub fn new() -> (p: EscapeParser)
        ensures
            p.charset_state() == initial_charsets(),
            p.fed() == Seq::<Seq<u8>>::empty(),
    {
        EscapeParser { vte: VtMachine::new(), charsets: CharsetState::initial() }
    }

    /// Turns a piece of the input stream into actions. An escape sequence or
    /// a UTF-8 character may be split across calls: the parser keeps the
    /// partial input for the next call. The result is the actions of the
    /// events that this piece adds, given the pieces fed before it.
    pub fn advance_bytes(&mut self, bytes: &[u8]) -> (actions: Vec<Action>)
        ensures
            final(self).fed() == old(self).fed().push(bytes@),
            (final(self).charset_state(), actions_view(actions@)) == run_events(
                old(self).charset_state(),
                new_events(old(self).fed(), final(self).fed()),
            ),
            events_extend(old(self).fed(), final(self).fed()),
    {
        let events = vte_advance(&mut self.vte, bytes);
        let actions = handle_events(&mut self.charsets, events.as_slice());
        actions
    }

    /// Feeds one character, in UTF-8, and returns the last action it
    /// completes, if any.
    pub fn advance(&mut self, ch: char) -> (action: Option<Action>)
        ensures
            final(self).fed() == old(self).fed().push(encode_utf8(seq![ch])),
            ({
                let (cs, actions) = run_events(old(self).charset_state(), new_events(old(self).fed(), final(self).fed()));
                &&& cs == final(self).charset_state()
                &&& option_action_view(action) == (if actions.len() == 0 {
                    None
                } else {
                    Some(actions.last())
                })
            }),
    {
        let bytes = char_utf8(ch);
        let mut actions = self.advance_bytes(bytes.as_slice());
        let ghost all = actions@;
        let last = actions.pop();
        proof {
            if all.len() > 0 {
                assert(actions_view(all).last() == action_view(all.last()));
            }
        }
        last
    }
}

impl Default for EscapeParser {
    fn default() -> (p: EscapeParser)
        ensures
            p.charset_state() == initial_charsets(),
            p.fed() == Seq::<Seq<u8>>::empty(),
    {
        EscapeParser::new()
    }
}

} // verus!
