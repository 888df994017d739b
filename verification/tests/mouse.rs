use terminal_core::input::KeyModifiers;
use terminal_core::mouse::{legacy_mouse_report, mouse_modifier_mask, sgr_mouse_report, LEFT_BUTTON, LEFT_DRAG, WHEEL_DOWN, WHEEL_UP};

#[test]
fn encodes_sgr_mouse_press() {
    assert_eq!(sgr_mouse_report(LEFT_BUTTON, 1, 2, false), b"\x1b[<0;3;2M".to_vec());
}

#[test]
fn encodes_sgr_mouse_release() {
    assert_eq!(sgr_mouse_report(LEFT_BUTTON, 1, 2, true), b"\x1b[<0;3;2m".to_vec());
}

#[test]
fn encodes_sgr_mouse_wheel() {
    assert_eq!(sgr_mouse_report(WHEEL_UP, 0, 0, false), b"\x1b[<64;1;1M".to_vec());
}

#[test]
fn encodes_sgr_mouse_drag_and_wheel_down_with_multi_digit_cells() {
    assert_eq!(sgr_mouse_report(LEFT_DRAG, 99, 119, false), b"\x1b[<32;120;100M".to_vec());
    assert_eq!(sgr_mouse_report(WHEEL_DOWN, 9, 9, false), b"\x1b[<65;10;10M".to_vec());
}

#[test]
fn mouse_modifier_mask_tracks_xterm_bits() {
    let shift_control = KeyModifiers { shift: true, control: true, option: false, command: false };
    let option = KeyModifiers { shift: false, control: false, option: true, command: false };
    assert_eq!(mouse_modifier_mask(shift_control), 20);
    assert_eq!(mouse_modifier_mask(option), 8);
    assert_eq!(mouse_modifier_mask(KeyModifiers::default()), 0);
}

#[test]
fn encodes_legacy_mouse_reports() {
    assert_eq!(legacy_mouse_report(LEFT_BUTTON, 1, 2, false), vec![0x1b, b'[', b'M', 32, 35, 34]);
    assert_eq!(legacy_mouse_report(LEFT_BUTTON | 4, 1, 2, true), vec![0x1b, b'[', b'M', 32 + 7, 35, 34]);
    assert_eq!(legacy_mouse_report(WHEEL_UP, 0, 0, false), vec![0x1b, b'[', b'M', 96, 33, 33]);
    assert_eq!(legacy_mouse_report(LEFT_DRAG, 500, 222, false), vec![0x1b, b'[', b'M', 64, 255, 255]);
    assert_eq!(legacy_mouse_report(WHEEL_DOWN, 221, 0, false), vec![0x1b, b'[', b'M', 97, 33, 254]);
}
