use terminal_core::composition::{CompositionState, TextRange};

#[test]
fn tracks_marked_text() {
    let mut state = CompositionState::default();
    assert!(!state.has_marked_text());

    state.set_marked_text("한".to_string(), TextRange { location: 1, length: 0 });

    assert!(state.has_marked_text());
    assert_eq!(state.marked_text(), "한");
    assert_eq!(state.marked_range(), TextRange { location: 0, length: 1 });
    assert_eq!(state.selected_range(), TextRange { location: 1, length: 0 });
}

#[test]
fn clear_resets_marked_text() {
    let mut state = CompositionState::default();
    state.set_marked_text("한".to_string(), TextRange::default());
    state.clear();

    assert!(!state.has_marked_text());
    assert_eq!(state.marked_text(), "");
    assert_eq!(state.marked_range(), TextRange { location: usize::MAX, length: 0 });
}

#[test]
fn marked_range_counts_characters_not_bytes() {
    let mut state = CompositionState::default();
    state.set_marked_text("한글a".to_string(), TextRange { location: 2, length: 1 });
    assert_eq!(state.marked_range(), TextRange { location: 0, length: 3 });
    assert_eq!(state.selected_range(), TextRange { location: 2, length: 1 });
}
