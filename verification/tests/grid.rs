use terminal_core::cell::Cell;
use terminal_core::grid::Grid;
use terminal_core::{Cursor, Style};

#[test]
fn put_char_moves_a_cursor_below_the_screen_onto_the_last_row() {
    let mut grid = Grid::new(3, 5);
    let mut cursor = Cursor::new(9, 1);
    assert!(!grid.put_char(&mut cursor, 'x', Style::default()));
    assert_eq!(cursor, Cursor::new(2, 2));
    assert_eq!(grid.visible_lines_from(0, 3), vec!["", "", " x"]);
}

#[test]
fn put_char_past_the_last_column_wraps_first() {
    let mut grid = Grid::new(3, 5);
    let mut cursor = Cursor::new(0, 7);
    assert!(!grid.put_char(&mut cursor, 'y', Style::default()));
    assert_eq!(cursor, Cursor::new(1, 1));
    assert_eq!(grid.visible_lines_from(0, 3), vec!["", "y", ""]);
}

#[test]
fn newline_and_index_accept_any_column() {
    let mut grid = Grid::new(3, 5);
    let mut cursor = Cursor::new(0, 40);
    grid.newline(&mut cursor);
    assert_eq!(cursor, Cursor::new(1, 0));
    let mut cursor = Cursor::new(1, 40);
    grid.index_in_region(&mut cursor, None, Style::default());
    assert_eq!(cursor, Cursor::new(2, 40));
    grid.reverse_index_in_region(&mut cursor, None, Style::default());
    assert_eq!(cursor, Cursor::new(1, 40));
    let mut cursor = Cursor::new(2, 9);
    grid.newline_in_region(&mut cursor, Some((0, 1)), Style::default());
    assert_eq!(cursor, Cursor::new(2, 0));
}

#[test]
fn backspace_from_just_past_the_last_column() {
    let mut grid = Grid::new(2, 4);
    let mut cursor = Cursor::new(0, 0);
    for ch in "abcd".chars() {
        grid.put_char(&mut cursor, ch, Style::default());
    }
    let mut cursor = Cursor::new(0, 4);
    grid.backspace(&mut cursor);
    assert_eq!(cursor, Cursor::new(0, 3));
    assert_eq!(grid.visible_lines_from(0, 1), vec!["abc"]);
}

#[test]
fn history_keeps_the_most_recent_rows() {
    let mut grid = Grid::new(2, 3);
    for _ in 0..2001 {
        grid.push_scrollback(vec![Cell::blank(); 3]);
    }
    assert_eq!(grid.scrollback_len(), 2000);
    let mut cursor = Cursor::new(0, 0);
    grid.put_char(&mut cursor, 'z', Style::default());
    grid.scroll_up();
    assert_eq!(grid.scrollback_len(), 2000);
    assert_eq!(grid.scrollback_lines(0, 1), vec!["z"]);
}
