use terminal_core::composition::{CompositionState, TextRange};
use terminal_core::render::{
    color_cube, color_rgb, cube_component, draw_composition_text, draw_plain_terminal_text,
    draw_selection_highlights, draw_styled_line, draw_terminal_text, draw_text_cells_at, indexed_color,
    terminal_background_color, terminal_foreground_color, CellSpan, Fill, Glyph,
};
use terminal_core::selection::{GridPoint, SelectionRange};
use terminal_core::{Color, Style, StyledLine, StyledSpan, TerminalState};

fn plain() -> Style {
    Style::default()
}

#[test]
fn cube_components_follow_xterm_levels() {
    let levels: Vec<u8> = (0..6).map(cube_component).collect();
    assert_eq!(levels, vec![0, 95, 135, 175, 215, 255]);
    assert_eq!(color_cube(0), (0, 0, 0));
    assert_eq!(color_cube(215), (255, 255, 255));
    assert_eq!(color_cube(36 + 12 + 3), (95, 135, 175));
}

#[test]
fn indexed_palette_has_base_cube_and_gray_ramp() {
    assert_eq!(indexed_color(0), (0x1d, 0x1f, 0x21));
    assert_eq!(indexed_color(11), (0xfa, 0xbd, 0x2f));
    assert_eq!(indexed_color(15), (0xfb, 0xf1, 0xc7));
    assert_eq!(indexed_color(16), (0, 0, 0));
    assert_eq!(indexed_color(196), (255, 0, 0));
    assert_eq!(indexed_color(231), (255, 255, 255));
    assert_eq!(indexed_color(232), (8, 8, 8));
    assert_eq!(indexed_color(255), (238, 238, 238));
}

#[test]
fn default_colors_and_inverse_video() {
    assert_eq!(color_rgb(None, true), (255, 255, 255));
    assert_eq!(color_rgb(None, false), (0, 0, 0));
    assert_eq!(color_rgb(Some(Color::Rgb(1, 2, 3)), false), (1, 2, 3));
    let inverse = Style { inverse: true, ..Style::default() };
    assert_eq!(terminal_foreground_color(inverse), Some(Color::Indexed(0)));
    assert_eq!(terminal_background_color(inverse), Some(Color::Indexed(7)));
    let colored = Style { foreground: Some(Color::Indexed(1)), background: Some(Color::Indexed(4)), ..Style::default() };
    assert_eq!(terminal_foreground_color(colored), Some(Color::Indexed(1)));
    assert_eq!(terminal_background_color(colored), Some(Color::Indexed(4)));
    let swapped = Style { inverse: true, ..colored };
    assert_eq!(terminal_foreground_color(swapped), Some(Color::Indexed(4)));
    assert_eq!(terminal_background_color(swapped), Some(Color::Indexed(1)));
    assert_eq!(terminal_background_color(Style::default()), None);
}

#[test]
fn wide_characters_take_two_cells_and_marks_stack() {
    let glyphs = draw_text_cells_at("a한e\u{301}b", 3, 5, plain());
    let cols: Vec<usize> = glyphs.iter().map(|g| g.col).collect();
    assert_eq!(cols, vec![5, 6, 8, 8, 9]);
    assert!(glyphs.iter().all(|g| g.row == 3));
    assert_eq!(glyphs[3].ch, '\u{301}');
}

#[test]
fn plain_lines_are_drawn_one_per_row() {
    let glyphs = draw_plain_terminal_text(&["ab".to_string(), String::new(), "c".to_string()]);
    assert_eq!(
        glyphs,
        vec![
            Glyph { row: 0, col: 0, ch: 'a', style: plain() },
            Glyph { row: 0, col: 1, ch: 'b', style: plain() },
            Glyph { row: 2, col: 0, ch: 'c', style: plain() },
        ]
    );
}

#[test]
fn styled_spans_follow_each_other_and_fill_backgrounds() {
    let red_bg = Style { background: Some(Color::Indexed(1)), ..Style::default() };
    let line = StyledLine {
        spans: vec![
            StyledSpan { text: "한a".to_string(), style: red_bg },
            StyledSpan { text: "b".to_string(), style: plain() },
            StyledSpan { text: String::new(), style: red_bg },
        ],
    };
    let plan = draw_styled_line(&line, 2);
    assert_eq!(plan.fills, vec![Fill { row: 2, col: 0, width: 3, color: Color::Indexed(1) }]);
    let cols: Vec<usize> = plan.glyphs.iter().map(|g| g.col).collect();
    assert_eq!(cols, vec![0, 2, 3]);
    assert_eq!(plan.glyphs[2].style, plain());
}

#[test]
fn snapshot_text_uses_styled_lines() {
    let mut terminal = TerminalState::new(2, 10);
    terminal.append_bytes(b"\x1b[41mx\x1b[0my");
    let snapshot = terminal.snapshot(2);
    let plan = draw_terminal_text(&snapshot);
    assert_eq!(plan.fills, vec![Fill { row: 0, col: 0, width: 1, color: Color::Indexed(1) }]);
    let chars: Vec<char> = plan.glyphs.iter().map(|g| g.ch).collect();
    assert!(chars.starts_with(&['x', 'y']));

    let mut plain_snapshot = snapshot.clone();
    plain_snapshot.styled_lines.clear();
    let plan = draw_terminal_text(&plain_snapshot);
    assert!(plan.fills.is_empty());
    assert_eq!(plan.glyphs.len(), 2);
}

#[test]
fn composition_is_drawn_at_the_cursor() {
    let mut terminal = TerminalState::new(3, 10);
    terminal.append_bytes(b"ab");
    let snapshot = terminal.snapshot(3);
    let mut composition = CompositionState::default();
    assert!(draw_composition_text(&snapshot, &composition).is_empty());
    composition.set_marked_text("한".to_string(), TextRange::default());
    let glyphs = draw_composition_text(&snapshot, &composition);
    let style = Style { underline: true, foreground: Some(Color::Indexed(11)), ..Style::default() };
    assert_eq!(glyphs, vec![Glyph { row: 0, col: 2, ch: '한', style }]);
}

#[test]
fn selection_highlights_clamp_to_line_width() {
    let lines = vec!["hello".to_string(), String::new(), "한글".to_string()];
    let range = SelectionRange::new(GridPoint { row: 0, col: 3 }, GridPoint { row: 2, col: 9 });
    assert_eq!(
        draw_selection_highlights(&lines, Some(range)),
        vec![CellSpan { row: 0, col: 3, width: 2 }, CellSpan { row: 2, col: 0, width: 4 }]
    );
    assert!(draw_selection_highlights(&lines, None).is_empty());
}
