use terminal_core::smoke::{delay_or_default, join_lines, smoke_mouse_reports};
use terminal_core::TerminalModes;

#[test]
fn smoke_mouse_reports_need_mouse_mode() {
    let mut modes = TerminalModes::default();
    assert_eq!(smoke_mouse_reports(modes, "left-press"), None);
    modes.mouse_reporting = true;
    assert_eq!(smoke_mouse_reports(modes, "left-press"), Some(vec![vec![0x1b, b'[', b'M', 32, 35, 34]]));
    assert_eq!(smoke_mouse_reports(modes, "wheel-down"), Some(vec![vec![0x1b, b'[', b'M', 32 + 65, 35, 34]]));
    modes.sgr_mouse = true;
    assert_eq!(smoke_mouse_reports(modes, "left-press"), Some(vec![b"\x1b[<0;3;2M".to_vec()]));
    assert_eq!(smoke_mouse_reports(modes, "wheel-down"), Some(vec![b"\x1b[<65;3;2M".to_vec()]));
    assert_eq!(smoke_mouse_reports(modes, "wheel-down-5"), Some(vec![b"\x1b[<65;3;2M".to_vec(); 5]));
    assert_eq!(smoke_mouse_reports(modes, "right-press"), None);
}

#[test]
fn snapshot_lines_are_joined_with_newlines() {
    assert_eq!(join_lines(&[]), "");
    assert_eq!(join_lines(&["a".to_string()]), "a");
    assert_eq!(join_lines(&["a".to_string(), String::new(), "c".to_string()]), "a\n\nc");
}

#[test]
fn delays_fall_back_to_default() {
    assert_eq!(delay_or_default(None, 500), 500);
    assert_eq!(delay_or_default(Some("250"), 500), 250);
    assert_eq!(delay_or_default(Some("+7"), 500), 7);
    assert_eq!(delay_or_default(Some("abc"), 500), 500);
    assert_eq!(delay_or_default(Some(""), 500), 500);
    assert_eq!(delay_or_default(Some("18446744073709551616"), 500), 500);
    assert_eq!(delay_or_default(Some("18446744073709551615"), 500), u64::MAX);
}
