use terminal_core::input::{KeyModifiers, KEY_C, KEY_PAGE_UP, KEY_RETURN, KEY_V, KEY_W};
use terminal_core::selection::GridPoint;
use terminal_core::terminal_buffer::TerminalBuffer;
use terminal_core::terminal_view::{contains_chars, mouse_report, parse_rows_by_cols, KeyAction, TerminalView};
use terminal_core::TerminalModes;

#[test]
fn parse_rows_by_cols_accepts_valid_terminal_size() {
    assert_eq!(parse_rows_by_cols("24x80"), Some((24, 80)));
}

#[test]
fn parse_rows_by_cols_rejects_invalid_terminal_size() {
    assert_eq!(parse_rows_by_cols("24:80"), None);
    assert_eq!(parse_rows_by_cols("0x80"), None);
    assert_eq!(parse_rows_by_cols("24x0"), None);
}

#[test]
fn parse_rows_by_cols_reads_numbers_as_usize_from_str() {
    assert_eq!(parse_rows_by_cols("+24x+80"), Some((24, 80)));
    assert_eq!(parse_rows_by_cols("024x080"), Some((24, 80)));
    assert_eq!(parse_rows_by_cols("24x80x1"), None);
    assert_eq!(parse_rows_by_cols("x80"), None);
    assert_eq!(parse_rows_by_cols("24x"), None);
    assert_eq!(parse_rows_by_cols("+x80"), None);
    assert_eq!(parse_rows_by_cols("-1x80"), None);
    assert_eq!(parse_rows_by_cols(" 24x80"), None);
    assert_eq!(parse_rows_by_cols("99999999999999999999999x80"), None);
    assert_eq!(parse_rows_by_cols("18446744073709551615x1"), Some((usize::MAX, 1)));
}

#[test]
fn finds_text_anywhere_in_history_and_screen() {
    let mut buffer = TerminalBuffer::new(0);
    for _ in 0..40 {
        buffer.append_bytes(b"filler\r\n");
    }
    buffer.append_bytes(b"needle here");
    assert!(TerminalView::snapshot_contains_text(&buffer, "needle"));
    assert!(TerminalView::snapshot_contains_text(&buffer, ""));
    assert!(!TerminalView::snapshot_contains_text(&buffer, "haystack"));

    let mut fresh = TerminalBuffer::new(0);
    fresh.append_bytes(b"top line\r\n");
    for _ in 0..40 {
        fresh.append_bytes(b"x\r\n");
    }
    assert!(fresh.scrollback_len() > 0);
    assert!(TerminalView::snapshot_contains_text(&fresh, "top line"));
}

#[test]
fn contains_chars_matches_runs() {
    let hay: Vec<char> = "abcabd".chars().collect();
    assert!(contains_chars(&hay, &['a', 'b', 'd']));
    assert!(!contains_chars(&hay, &['a', 'b', 'e']));
    assert!(contains_chars(&[], &[]));
    assert!(!contains_chars(&['a'], &['a', 'a']));
}

#[test]
fn first_text_input_is_reported_once() {
    let mut view = TerminalView::new(24, 80);
    let (bytes, first) = view.write_text_to_pty("ls\r");
    assert_eq!(bytes, b"ls\r".to_vec());
    assert!(first);
    let (bytes, first) = view.write_text_to_pty("한");
    assert_eq!(bytes, "한".as_bytes().to_vec());
    assert!(!first);
}

#[test]
fn resize_applies_only_when_size_changes() {
    let mut buffer = TerminalBuffer::new(0);
    let mut view = TerminalView::new(32, 100);
    assert!(!view.apply_resize_if_needed(&mut buffer, 32, 100));
    assert!(view.apply_resize_if_needed(&mut buffer, 10, 20));
    assert_eq!((view.rows(), view.cols()), (10, 20));
    let snapshot = view.current_snapshot(&buffer, 100);
    assert_eq!(snapshot.lines.len(), 10);
}

#[test]
fn scrollback_paging_is_clamped_to_history() {
    let mut buffer = TerminalBuffer::new(0);
    let mut view = TerminalView::new(32, 100);
    assert!(view.apply_resize_if_needed(&mut buffer, 10, 80));
    for _ in 0..25 {
        buffer.append_bytes(b"row\r\n");
    }
    let history = buffer.scrollback_len();
    assert_eq!(history, 16);
    view.scroll_page_up(&buffer);
    assert_eq!(view.scrollback_offset(), 10);
    view.scroll_page_up(&buffer);
    assert_eq!(view.scrollback_offset(), 16);
    view.scroll_page_down(&buffer);
    assert_eq!(view.scrollback_offset(), 6);
    view.scroll_page_down(&buffer);
    assert_eq!(view.scrollback_offset(), 0);
    view.adjust_scrollback(&buffer, 3);
    assert_eq!(view.scrollback_offset(), 3);
    view.adjust_scrollback(&buffer, isize::MIN);
    assert_eq!(view.scrollback_offset(), 0);
}

#[test]
fn current_modes_follow_the_terminal() {
    let mut buffer = TerminalBuffer::new(0);
    let view = TerminalView::new(24, 80);
    assert_eq!(view.current_modes(&buffer), TerminalModes::default());
    buffer.append_bytes(b"\x1b[?1000h\x1b[?1006h");
    let modes = view.current_modes(&buffer);
    assert!(modes.mouse_reporting);
    assert!(modes.sgr_mouse);
}

#[test]
fn mouse_reports_only_when_requested() {
    let mut modes = TerminalModes::default();
    let point = GridPoint { row: 1, col: 2 };
    assert_eq!(mouse_report(modes, 0, 4, point, false), None);
    modes.mouse_reporting = true;
    assert_eq!(mouse_report(modes, 0, 4, point, false), Some(vec![0x1b, b'[', b'M', 32 + 4, 32 + 3, 32 + 2]));
    assert_eq!(mouse_report(modes, 0, 0, point, true), Some(vec![0x1b, b'[', b'M', 32 + 3, 32 + 3, 32 + 2]));
    modes.sgr_mouse = true;
    assert_eq!(mouse_report(modes, 0, 4, point, false), Some(b"\x1b[<4;3;2M".to_vec()));
    assert_eq!(mouse_report(modes, 64, 16, point, true), Some(b"\x1b[<80;3;2m".to_vec()));
}

#[test]
fn key_presses_are_routed_in_order() {
    let command = KeyModifiers { command: true, ..KeyModifiers::default() };
    let none = KeyModifiers::default();
    let control = KeyModifiers { control: true, ..KeyModifiers::default() };
    assert_eq!(TerminalView::key_down_action(KEY_W, command, Some("w")), KeyAction::CloseWindow);
    assert_eq!(TerminalView::key_down_action(KEY_C, command, Some("c")), KeyAction::Copy);
    assert_eq!(TerminalView::key_down_action(KEY_V, command, Some("v")), KeyAction::Paste);
    assert_eq!(TerminalView::key_down_action(KEY_PAGE_UP, none, None), KeyAction::PageUp);
    assert_eq!(TerminalView::key_down_action(0, none, Some("a")), KeyAction::TextInput);
    assert_eq!(TerminalView::key_down_action(KEY_RETURN, none, Some("\r")), KeyAction::Send(b"\r".to_vec()));
    assert_eq!(TerminalView::key_down_action(KEY_C, control, Some("\u{3}")), KeyAction::Send(vec![0x03]));
    assert_eq!(TerminalView::key_down_action(KEY_RETURN, none, None), KeyAction::Ignore);
    assert_eq!(TerminalView::key_down_action(0, control, Some("")), KeyAction::Ignore);
}

#[test]
fn typing_returns_to_the_bottom_and_is_noted_once() {
    let mut buffer = TerminalBuffer::new(0);
    for _ in 0..40 {
        buffer.append_bytes(b"line\r\n");
    }
    let mut view = TerminalView::new(32, 100);
    view.scroll_page_up(&buffer);
    assert!(view.scrollback_offset() > 0);
    view.scroll_to_bottom();
    assert_eq!(view.scrollback_offset(), 0);
    assert!(view.mark_input_seen());
    assert!(!view.mark_input_seen());
}
