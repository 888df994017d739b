use terminal_core::terminal_buffer::TerminalBuffer;
use terminal_core::Cursor;

#[test]
fn new_buffer_is_a_blank_default_screen() {
    let buffer = TerminalBuffer::new(10_000);
    let snapshot = buffer.snapshot(usize::MAX);
    assert_eq!(snapshot.lines.len(), 32);
    assert!(snapshot.lines.iter().all(|line| line.is_empty()));
    assert_eq!(snapshot.cursor, Cursor::new(0, 0));
    assert_eq!(buffer.scrollback_len(), 0);
}

#[test]
fn append_bytes_hands_back_replies_once() {
    let mut buffer = TerminalBuffer::new(0);
    assert_eq!(buffer.append_bytes(b"\x1b[5n"), b"\x1b[0n".to_vec());
    assert_eq!(buffer.append_bytes(b"hi"), Vec::<u8>::new());
    assert_eq!(buffer.append_bytes(b"\x1b[6n"), b"\x1b[1;3R".to_vec());
}

#[test]
fn clipboard_and_titles_are_handed_over_once() {
    let mut buffer = TerminalBuffer::new(0);
    buffer.append_bytes(b"\x1b]52;c;aGk=\x07\x1b]2;title\x07");
    assert_eq!(buffer.take_pending_clipboard_writes(), vec!["hi".to_string()]);
    assert!(buffer.take_pending_clipboard_writes().is_empty());
    assert_eq!(buffer.take_pending_title_writes(), vec!["title".to_string()]);
    assert!(buffer.take_pending_title_writes().is_empty());
}

#[test]
fn combined_snapshot_reaches_into_history() {
    let mut buffer = TerminalBuffer::new(0);
    buffer.resize(2, 10);
    buffer.append_bytes(b"a\r\nb\r\nc\r\nd");
    assert_eq!(buffer.scrollback_len(), 2);
    let bottom = buffer.combined_snapshot(0, 2);
    assert_eq!(bottom.lines, vec!["c", "d"]);
    let up = buffer.combined_snapshot(2, 2);
    assert_eq!(up.lines, vec!["a", "b"]);
    let all = buffer.combined_snapshot(0, usize::MAX);
    assert_eq!(all.lines, vec!["a", "b", "c", "d"]);
}
