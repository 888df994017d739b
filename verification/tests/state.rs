use terminal_core::{Cursor, TerminalState};
#[test]
fn writes_printable_text_and_tracks_cursor() {
    let mut terminal = TerminalState::new(3, 10);
    terminal.append_bytes(b"hello");

    let snapshot = terminal.snapshot(3);
    assert_eq!(snapshot.lines, vec!["hello", "", ""]);
    assert_eq!(snapshot.cursor, Cursor::new(0, 5));
}

#[test]
fn carriage_return_rewrites_current_line() {
    let mut terminal = TerminalState::new(3, 10);
    terminal.append_bytes(b"prompt");
    terminal.append_bytes(b"\rnext");

    let snapshot = terminal.snapshot(3);
    assert_eq!(snapshot.lines[0], "nextpt");
    assert_eq!(snapshot.cursor, Cursor::new(0, 4));
}

#[test]
fn newline_moves_to_next_row() {
    let mut terminal = TerminalState::new(3, 10);
    terminal.append_bytes(b"one\ntwo");

    let snapshot = terminal.snapshot(3);
    assert_eq!(snapshot.lines, vec!["one", "two", ""]);
    assert_eq!(snapshot.cursor, Cursor::new(1, 3));
}

#[test]
fn csi_clear_line_removes_stale_prompt_text() {
    let mut terminal = TerminalState::new(3, 16);
    terminal.append_bytes(b"old prompt");
    terminal.append_bytes(b"\r\x1b[Knew");

    let snapshot = terminal.snapshot(3);
    assert_eq!(snapshot.lines[0], "new");
    assert_eq!(snapshot.cursor, Cursor::new(0, 3));
}

#[test]
fn scrolls_when_output_exceeds_rows() {
    let mut terminal = TerminalState::new(2, 10);
    terminal.append_bytes(b"one\ntwo\nthree");

    let snapshot = terminal.snapshot(2);
    assert_eq!(snapshot.lines, vec!["two", "three"]);
    assert_eq!(snapshot.cursor, Cursor::new(1, 5));
}

#[test]
fn snapshot_keeps_top_rows_visible_before_scrolling() {
    let mut terminal = TerminalState::new(4, 10);
    terminal.append_bytes(b"prompt");

    let snapshot = terminal.snapshot(3);
    assert_eq!(snapshot.lines, vec!["prompt", "", ""]);
    assert_eq!(snapshot.cursor, Cursor::new(0, 6));
}

#[test]
fn output_split_inside_sequences_matches_output_at_once() {
    let whole: &[u8] = "\x1b[1;31mred\x1b[0m 한글\x1b[2;3Hx".as_bytes();
    let mut at_once = TerminalState::new(3, 12);
    at_once.append_bytes(whole);
    for split in 0..=whole.len() {
        let mut pieces = TerminalState::new(3, 12);
        pieces.append_bytes(&whole[..split]);
        pieces.append_bytes(&whole[split..]);
        assert_eq!(pieces.snapshot(3), at_once.snapshot(3), "split at {split}");
    }
}
