use terminal_core::selection::{
    selected_text, shift_point_row, slice_display_width, GridPoint, SelectionRange, SelectionState,
};

#[test]
fn normalizes_selection_range() {
    let range = SelectionRange::new(GridPoint { row: 2, col: 3 }, GridPoint { row: 1, col: 4 });

    assert_eq!(range.start, GridPoint { row: 1, col: 4 });
    assert_eq!(range.end, GridPoint { row: 2, col: 3 });
}

#[test]
fn extracts_selected_text_across_lines() {
    let lines = vec!["hello".to_string(), "world".to_string()];
    let text = selected_text(
        &lines,
        SelectionRange::new(GridPoint { row: 0, col: 1 }, GridPoint { row: 1, col: 3 }),
    );

    assert_eq!(text, "ello\nwor");
}

#[test]
fn preserves_wide_characters_in_selected_text() {
    let lines = vec!["A한B".to_string()];
    let text = selected_text(
        &lines,
        SelectionRange::new(GridPoint { row: 0, col: 1 }, GridPoint { row: 0, col: 3 }),
    );

    assert_eq!(text, "한");
}

#[test]
fn preserves_wide_character_when_boundary_splits_cell() {
    let lines = vec!["한글".to_string()];
    let text = selected_text(
        &lines,
        SelectionRange::new(GridPoint { row: 0, col: 1 }, GridPoint { row: 0, col: 2 }),
    );

    assert_eq!(text, "한");
}

#[test]
fn preserves_combining_marks_attached_to_selected_base() {
    let lines = vec!["e\u{301}x".to_string()];
    let text = selected_text(
        &lines,
        SelectionRange::new(GridPoint { row: 0, col: 0 }, GridPoint { row: 0, col: 1 }),
    );

    assert_eq!(text, "e\u{301}");
}

#[test]
fn extracts_text_across_empty_lines() {
    let lines = vec!["one".to_string(), String::new(), "three".to_string()];
    let text = selected_text(
        &lines,
        SelectionRange::new(GridPoint { row: 0, col: 1 }, GridPoint { row: 2, col: 2 }),
    );

    assert_eq!(text, "ne\n\nth");
}

#[test]
fn clamps_selection_past_line_width() {
    let lines = vec!["short".to_string()];
    let text = selected_text(
        &lines,
        SelectionRange::new(GridPoint { row: 0, col: 1 }, GridPoint { row: 0, col: 99 }),
    );

    assert_eq!(text, "hort");
}

#[test]
fn extracts_text_across_scrollback_live_boundary_snapshot() {
    let lines = vec!["scrollback".to_string(), "live-one".to_string(), "live-two".to_string()];
    let text = selected_text(
        &lines,
        SelectionRange::new(GridPoint { row: 0, col: 6 }, GridPoint { row: 2, col: 4 }),
    );

    assert_eq!(text, "back\nlive-one\nlive");
}

#[test]
fn inactive_until_drag_has_extent() {
    let mut state = SelectionState::default();
    state.begin(GridPoint { row: 0, col: 0 });
    assert!(state.range().is_none());

    state.update(GridPoint { row: 0, col: 2 });
    assert!(state.range().is_some());
}

#[test]
fn shifts_selection_rows_when_viewport_scrolls() {
    let mut state = SelectionState::default();
    state.begin(GridPoint { row: 2, col: 1 });
    state.update(GridPoint { row: 4, col: 3 });

    state.shift_rows(1, 9);
    assert_eq!(
        state.range(),
        Some(SelectionRange::new(GridPoint { row: 3, col: 1 }, GridPoint { row: 5, col: 3 }))
    );

    state.shift_rows(-10, 9);
    assert_eq!(
        state.range(),
        Some(SelectionRange::new(GridPoint { row: 0, col: 1 }, GridPoint { row: 0, col: 3 }))
    );
}

#[test]
fn update_without_drag_changes_nothing_and_clear_drops_selection() {
    let mut state = SelectionState::default();
    state.update(GridPoint { row: 1, col: 1 });
    assert_eq!(state.range(), None);

    state.begin(GridPoint { row: 0, col: 0 });
    state.update(GridPoint { row: 1, col: 1 });
    assert!(state.range().is_some());
    state.clear();
    assert_eq!(state.range(), None);
}

#[test]
fn selection_past_last_line_stops_at_last_line() {
    let lines = vec!["ab".to_string()];
    let text = selected_text(
        &lines,
        SelectionRange::new(GridPoint { row: 0, col: 1 }, GridPoint { row: 5, col: 0 }),
    );
    assert_eq!(text, "b");
}

#[test]
fn shift_point_row_saturates_and_clamps() {
    assert_eq!(shift_point_row(GridPoint { row: 3, col: 7 }, isize::MIN, 10), GridPoint { row: 0, col: 7 });
    assert_eq!(shift_point_row(GridPoint { row: 3, col: 7 }, isize::MAX, 10), GridPoint { row: 10, col: 7 });
    assert_eq!(shift_point_row(GridPoint { row: 3, col: 7 }, 0, 2), GridPoint { row: 2, col: 7 });
}

#[test]
fn slices_by_display_columns() {
    assert_eq!(slice_display_width("a한b", 0, 1), "a");
    assert_eq!(slice_display_width("a한b", 2, 3), "한");
    assert_eq!(slice_display_width("a한b", 3, 4), "b");
    assert_eq!(slice_display_width("abc", 2, 1), "");
}
