use terminal_core::input::{
    encode_control_key, encode_control_text, encode_key_event, is_command_key_parts, native_key_smoke_event,
    native_key_smoke_events, should_use_text_input_parts, KeyModifiers, KEY_BACKSPACE, KEY_DOWN, KEY_END, KEY_F5,
    KEY_FORWARD_DELETE, KEY_HOME, KEY_LEFT, KEY_N, KEY_PAGE_DOWN, KEY_PAGE_UP, KEY_Q, KEY_RETURN, KEY_RIGHT, KEY_UP,
    KEY_W,
};

fn encode_key_code(key_code: u16, input: &str) -> Option<Vec<u8>> {
    encode_key_event(key_code, KeyModifiers::default(), input)
}

fn held(shift: bool, control: bool, option: bool) -> KeyModifiers {
    KeyModifiers { shift, control, option, command: false }
}

fn command_with(control: bool, option: bool) -> KeyModifiers {
    KeyModifiers { shift: false, control, option, command: true }
}

#[test]
fn encodes_return_as_carriage_return() {
    assert_eq!(encode_key_code(KEY_RETURN, ""), Some(b"\r".to_vec()));
}

#[test]
fn encodes_backspace_as_delete_byte() {
    assert_eq!(encode_key_code(KEY_BACKSPACE, ""), Some(vec![0x7f]));
}

#[test]
fn encodes_arrow_keys_as_csi_sequences() {
    assert_eq!(encode_key_code(KEY_UP, ""), Some(b"\x1b[A".to_vec()));
    assert_eq!(encode_key_code(KEY_DOWN, ""), Some(b"\x1b[B".to_vec()));
    assert_eq!(encode_key_code(KEY_RIGHT, ""), Some(b"\x1b[C".to_vec()));
    assert_eq!(encode_key_code(KEY_LEFT, ""), Some(b"\x1b[D".to_vec()));
}

#[test]
fn encodes_control_text() {
    assert_eq!(encode_key_code(0, "\u{3}"), Some(vec![0x03]));
    assert_eq!(encode_key_code(0, "\u{4}"), Some(vec![0x04]));
}

#[test]
fn encodes_navigation_keys() {
    assert_eq!(encode_key_code(KEY_FORWARD_DELETE, ""), Some(b"\x1b[3~".to_vec()));
    assert_eq!(encode_key_code(KEY_HOME, ""), Some(b"\x1b[H".to_vec()));
    assert_eq!(encode_key_code(KEY_END, ""), Some(b"\x1b[F".to_vec()));
    assert_eq!(encode_key_code(KEY_PAGE_UP, ""), Some(b"\x1b[5~".to_vec()));
    assert_eq!(encode_key_code(KEY_PAGE_DOWN, ""), Some(b"\x1b[6~".to_vec()));
}

#[test]
fn typed_text_passes_through_as_utf8() {
    assert_eq!(encode_key_code(0, "a"), Some(b"a".to_vec()));
    assert_eq!(encode_key_code(0, "한"), Some("한".as_bytes().to_vec()));
    assert_eq!(encode_key_code(0, ""), None);
}

#[test]
fn control_shortcuts_send_etx_and_eot() {
    assert_eq!(encode_key_event(8, held(false, true, false), "c"), Some(vec![0x03]));
    assert_eq!(encode_key_event(2, held(false, true, false), "d"), Some(vec![0x04]));
    assert_eq!(encode_key_event(8, held(false, false, false), "c"), Some(b"c".to_vec()));
    assert_eq!(encode_control_key(held(false, true, false), 9), None);
    assert_eq!(encode_control_key(held(false, false, false), 8), None);
}

#[test]
fn control_text_takes_priority_over_key_code() {
    assert_eq!(encode_key_code(KEY_RETURN, "\u{3}"), Some(vec![0x03]));
    assert_eq!(encode_control_text("\u{3}\u{3}"), None);
    assert_eq!(encode_control_text(""), None);
}

#[test]
fn app_command_shortcuts_require_command_without_control_or_option() {
    assert!(is_command_key_parts(KEY_N, command_with(false, false), KEY_N));
    assert!(is_command_key_parts(KEY_W, command_with(false, false), KEY_W));
    assert!(is_command_key_parts(KEY_Q, command_with(false, false), KEY_Q));
    assert!(!is_command_key_parts(KEY_N, KeyModifiers::default(), KEY_N));
    assert!(!is_command_key_parts(KEY_N, command_with(false, true), KEY_N));
    assert!(!is_command_key_parts(KEY_N, command_with(true, false), KEY_N));
}

#[test]
fn text_input_path_excludes_special_keys_even_with_shift_only() {
    assert!(should_use_text_input_parts(0, held(true, false, false)));
    assert!(!should_use_text_input_parts(KEY_F5, held(true, false, false)));
    assert!(!should_use_text_input_parts(126, held(true, false, false)));
}

#[test]
fn text_input_path_excludes_control_option_and_command() {
    assert!(!should_use_text_input_parts(0, held(false, true, false)));
    assert!(!should_use_text_input_parts(0, held(false, false, true)));
    assert!(!should_use_text_input_parts(0, command_with(false, false)));
    assert!(should_use_text_input_parts(0, KeyModifiers::default()));
}

#[test]
fn native_key_smoke_event_maps_known_cases() {
    assert_eq!(native_key_smoke_event("control-f5"), Some((held(false, true, false), 96)));
    assert_eq!(native_key_smoke_event("shift-control-option-f5"), Some((held(true, true, true), 96)));
    assert_eq!(native_key_smoke_event("shift-option-up"), Some((held(true, false, true), 126)));
    assert_eq!(native_key_smoke_event("control-option-right"), Some((held(false, true, true), 124)));
    assert_eq!(native_key_smoke_event("unknown"), None);
}

#[test]
fn native_key_smoke_events_maps_comma_separated_cases() {
    assert_eq!(
        native_key_smoke_events("shift-up, control-up"),
        Some(vec![(held(true, false, false), 126), (held(false, true, false), 126)])
    );
    assert_eq!(native_key_smoke_events("shift-up,unknown"), None);
    assert_eq!(native_key_smoke_events(""), None);
}

#[test]
fn native_key_smoke_events_trims_each_name() {
    assert_eq!(native_key_smoke_events("\toption-f5 \n"), Some(vec![(held(false, false, true), 96)]));
    assert_eq!(native_key_smoke_events("shift-up,"), None);
}
