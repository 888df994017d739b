use vstd::prelude::*;

use crate::input::KeyModifiers;
use crate::text::{decimal, push_bytes, push_decimal};

verus! {

/// Button code of a left press.
pub const LEFT_BUTTON: u16 = 0;
/// Button code of a motion with the left button held.
pub const LEFT_DRAG: u16 = 32;
/// Button code of a wheel step up.
pub const WHEEL_UP: u16 = 64;
/// Button code of a wheel step down.
pub const WHEEL_DOWN: u16 = 65;
/// Bit added to a button code while Shift is held.
pub const SHIFT_MODIFIER: u16 = 4;
/// Bit added to a button code while Option (Meta) is held.
pub const META_MODIFIER: u16 = 8;
/// Bit added to a button code while Control is held.
pub const CONTROL_MODIFIER: u16 = 16;

/// An SGR mouse report: `ESC [ < code ; col ; row M` for a press or motion and
/// a final `m` for a release, with one-based column and row.
pub open spec fn sgr_mouse_report_spec(code: u16, row: usize, col: usize, release: bool) -> Seq<u8> {
    seq![0x1bu8, 0x5b, 0x3c] + decimal(code as nat) + seq![0x3bu8] + decimal((col + 1) as nat) + seq![0x3bu8]
        + decimal((row + 1) as nat) + seq![if release { 0x6du8 } else { 0x4du8 }]
}

/// Encodes a mouse event at the zero-based cell `(row, col)` in the SGR format.
pub fn sgr_mouse_report(code: u16, row: usize, col: usize, release: bool) -> (bytes: Vec<u8>)
    requires
        row < usize::MAX,
        col < usize::MAX,
    ensures
        bytes@ == sgr_mouse_report_spec(code, row, col, release),
{
    let lead: [u8; 3] = [0x1b, 0x5b, 0x3c];
    assert(lead@ == seq![0x1bu8, 0x5b, 0x3c]);
    let mut bytes: Vec<u8> = Vec::new();
    push_bytes(&mut bytes, &lead);
    push_decimal(&mut bytes, code as usize);
    bytes.push(0x3b);
    push_decimal(&mut bytes, col + 1);
    bytes.push(0x3b);
    push_decimal(&mut bytes, row + 1);
    bytes.push(if release { 0x6d } else { 0x4d });
    proof {
        assert(bytes@ =~= sgr_mouse_report_spec(code, row, col, release));
    }
    bytes
}

/// One coordinate or button byte of a legacy report: 32 plus the value,
/// capped at 255 since the format has one byte for it.
pub open spec fn legacy_byte(n: int) -> u8 {
    if 32 + n <= 255 {
        (32 + n) as u8
    } else {
        255
    }
}

/// The button code of a legacy report: a release is button 3, keeping the
/// modifier, motion and wheel bits.
pub open spec fn legacy_button(code: u16, release: bool) -> u16 {
    if release {
        (code & 0xfffcu16) | 3u16
    } else {
        code
    }
}

/// A legacy (X10 and normal tracking) mouse report: `ESC [ M` and three
/// bytes, the button code, the one-based column and the one-based row, each
/// plus 32.
pub open spec fn legacy_mouse_report_spec(code: u16, row: usize, col: usize, release: bool) -> Seq<u8> {
    seq![0x1bu8, 0x5b, 0x4d, legacy_byte(legacy_button(code, release) as int), legacy_byte(col + 1), legacy_byte(row + 1)]
}

fn legacy_coordinate(n: usize) -> (b: u8)
    ensures
        b == legacy_byte(n + 1),
{
    if n < 222 {
        (33 + n) as u8
    } else {
        255
    }
}

/// Encodes a mouse event at the zero-based cell `(row, col)` in the legacy format.
pub fn legacy_mouse_report(code: u16, row: usize, col: usize, release: bool) -> (bytes: Vec<u8>)
    ensures
        bytes@ == legacy_mouse_report_spec(code, row, col, release),
{
    let button: u16 = if release { (code & 0xfffc) | 3 } else { code };
    let button_byte: u8 = if button < 224 { (32 + button) as u8 } else { 255 };
    let report: [u8; 6] = [0x1b, 0x5b, 0x4d, button_byte, legacy_coordinate(col), legacy_coordinate(row)];
    assert(report@ =~= legacy_mouse_report_spec(code, row, col, release));
    vstd::slice::slice_to_vec(&report)
}

/// The xterm modifier bits of a mouse report: Shift 4, Option (Meta) 8, Control 16.
pub open spec fn modifier_mask_spec(flags: KeyModifiers) -> u16 {
    ((if flags.shift { SHIFT_MODIFIER } else { 0 }) + (if flags.option { META_MODIFIER } else { 0 }) + (
    if flags.control { CONTROL_MODIFIER } else { 0 })) as u16
}

/// The modifier bits to add to a mouse button code.
pub fn mouse_modifier_mask(flags: KeyModifiers) -> (mask: u16)
    ensures
        mask == modifier_mask_spec(flags),
{
    let mut mask: u16 = 0;
    if flags.shift {
        mask = mask + SHIFT_MODIFIER;
    }
    if flags.option {
        mask = mask + META_MODIFIER;
    }
    if flags.control {
        mask = mask + CONTROL_MODIFIER;
    }
    mask
}

} // verus!
