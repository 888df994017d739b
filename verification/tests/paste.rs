use terminal_core::paste::{bracketed_paste_bytes, paste_bytes};
use terminal_core::TerminalModes;

#[test]
fn wraps_bracketed_paste_bytes() {
    assert_eq!(bracketed_paste_bytes("hello"), b"\x1b[200~hello\x1b[201~".to_vec());
}

#[test]
fn preserves_utf8_paste_content() {
    assert_eq!(bracketed_paste_bytes("한글"), b"\x1b[200~\xed\x95\x9c\xea\xb8\x80\x1b[201~".to_vec());
}

#[test]
fn wraps_empty_paste() {
    assert_eq!(bracketed_paste_bytes(""), b"\x1b[200~\x1b[201~".to_vec());
}

#[test]
fn paste_frames_text_only_in_bracketed_mode() {
    let mut modes = TerminalModes::default();
    assert_eq!(paste_bytes(modes, ""), None);
    assert_eq!(paste_bytes(modes, "ls"), Some(b"ls".to_vec()));
    modes.bracketed_paste = true;
    assert_eq!(paste_bytes(modes, "ls"), Some(b"\x1b[200~ls\x1b[201~".to_vec()));
    assert_eq!(paste_bytes(modes, ""), None);
}
