use terminal_core::parser::{Action, EscapeParser, LineClearMode, ScreenClearMode};
use terminal_core::CursorStyle;
#[test]
fn parses_cursor_position() {
    let mut parser = EscapeParser::default();
    assert_eq!(parser.advance('\u{1b}'), None);
    assert_eq!(parser.advance('['), None);
    assert_eq!(parser.advance('1'), None);
    assert_eq!(parser.advance(';'), None);
    assert_eq!(parser.advance('5'), None);
    assert_eq!(
        parser.advance('H'),
        Some(Action::CursorPosition { row: 0, col: 4 })
    );
}

#[test]
fn skips_osc_until_bel() {
    let mut parser = EscapeParser::default();
    assert_eq!(parser.advance('\u{1b}'), None);
    assert_eq!(parser.advance(']'), None);
    assert_eq!(parser.advance('0'), None);
    assert_eq!(parser.advance(';'), None);
    assert_eq!(parser.advance('t'), None);
    assert_eq!(parser.advance('i'), None);
    assert_eq!(parser.advance('t'), None);
    assert_eq!(parser.advance('l'), None);
    assert_eq!(parser.advance('e'), None);
    assert_eq!(
        parser.advance('\u{07}'),
        Some(Action::SetWindowTitle("title".to_string()))
    );
    assert_eq!(parser.advance('x'), Some(Action::Print('x')));
}

#[test]
fn parses_osc_title_update() {
    let mut parser = EscapeParser::default();
    assert_eq!(
        parser.advance_bytes(b"\x1b]2;minimal terminal\x07"),
        vec![Action::SetWindowTitle("minimal terminal".to_string())]
    );
    assert_eq!(parser.advance_bytes(b"\x1b]2;\x07"), vec![Action::Ignore]);
}

#[test]
fn parses_osc52_clipboard_write() {
    let mut parser = EscapeParser::default();
    assert_eq!(
        parser.advance_bytes(b"\x1b]52;c;aGVsbG8=\x07"),
        vec![Action::SetClipboard("hello".to_string())]
    );
    assert_eq!(
        parser.advance_bytes(b"\x1b]52;c;?\x07"),
        vec![Action::ClipboardQueryDenied("c".to_string())]
    );
    assert_eq!(
        parser.advance_bytes(b"\x1b]52;c;not-base64\x07"),
        vec![Action::Ignore]
    );
}

#[test]
fn parses_ascii_charset_designation() {
    let mut parser = EscapeParser::default();
    assert_eq!(parser.advance('\u{1b}'), None);
    assert_eq!(parser.advance('('), None);
    assert_eq!(parser.advance('B'), None);
    assert_eq!(parser.advance('x'), Some(Action::Print('x')));
}

#[test]
fn maps_dec_special_graphics_charset() {
    let mut parser = EscapeParser::default();

    assert_eq!(
        parser.advance_bytes(b"\x1b(0lqk"),
        vec![Action::Print('┌'), Action::Print('─'), Action::Print('┐')]
    );
    assert_eq!(parser.advance_bytes(b"x"), vec![Action::Print('│')]);
    assert_eq!(parser.advance_bytes(b"\x1b(Bx"), vec![Action::Print('x')]);
}

#[test]
fn maps_dec_supplemental_graphics_charset() {
    let mut parser = EscapeParser::default();

    assert_eq!(
        parser.advance_bytes(b"\x1b(%5!\"#(W]_$w}~\x1b(B!"),
        vec![
            Action::Print('¡'),
            Action::Print('¢'),
            Action::Print('£'),
            Action::Print('¤'),
            Action::Print('Œ'),
            Action::Print('Ÿ'),
            Action::Print('_'),
            Action::Print('␦'),
            Action::Print('œ'),
            Action::Print('ÿ'),
            Action::Print('␦'),
            Action::Print('!'),
        ]
    );
    assert_eq!(
        parser.advance_bytes(b"\x1b*%5\x1bNWx"),
        vec![Action::Print('Œ'), Action::Print('x')]
    );
    assert_eq!(
        parser.advance_bytes(b"\x1b)%5\x1b~\xc2\xa1"),
        vec![Action::Print('¡')]
    );
}

#[test]
fn maps_dec_technical_charset() {
    let mut parser = EscapeParser::default();

    assert_eq!(
        parser.advance_bytes(b"\x1b(>!\"#$%&'()*+,-./0<=>?@ABCDV{}~8\x1b(B!"),
        vec![
            Action::Print('⎷'),
            Action::Print('┌'),
            Action::Print('─'),
            Action::Print('⌠'),
            Action::Print('⌡'),
            Action::Print('│'),
            Action::Print('⎡'),
            Action::Print('⎣'),
            Action::Print('⎤'),
            Action::Print('⎦'),
            Action::Print('⎧'),
            Action::Print('⎩'),
            Action::Print('⎫'),
            Action::Print('⎭'),
            Action::Print('⎨'),
            Action::Print('⎬'),
            Action::Print('≤'),
            Action::Print('≠'),
            Action::Print('≥'),
            Action::Print('∫'),
            Action::Print('∴'),
            Action::Print('∝'),
            Action::Print('∞'),
            Action::Print('÷'),
            Action::Print('Δ'),
            Action::Print('√'),
            Action::Print('←'),
            Action::Print('→'),
            Action::Print('↓'),
            Action::Print('␦'),
            Action::Print('!'),
        ]
    );
    assert_eq!(
        parser.advance_bytes(b"\x1b*>\x1bN~x"),
        vec![Action::Print('↓'), Action::Print('x')]
    );
    assert_eq!(
        parser.advance_bytes(b"\x1b)>\x1b~\xc2\xa1"),
        vec![Action::Print('⎷')]
    );
}

#[test]
fn maps_dec_cyrillic_charset() {
    let mut parser = EscapeParser::default();

    assert_eq!(
        parser.advance_bytes(b"\x1b(&4@ABCXYZ[\\]^_`abcxyz{|}~!\x1b(B!"),
        vec![
            Action::Print('ю'),
            Action::Print('а'),
            Action::Print('б'),
            Action::Print('ц'),
            Action::Print('ь'),
            Action::Print('ы'),
            Action::Print('з'),
            Action::Print('ш'),
            Action::Print('э'),
            Action::Print('щ'),
            Action::Print('ч'),
            Action::Print('ъ'),
            Action::Print('Ю'),
            Action::Print('А'),
            Action::Print('Б'),
            Action::Print('Ц'),
            Action::Print('Ь'),
            Action::Print('Ы'),
            Action::Print('З'),
            Action::Print('Ш'),
            Action::Print('Э'),
            Action::Print('Щ'),
            Action::Print('Ч'),
            Action::Print('␦'),
            Action::Print('!'),
        ]
    );
    assert_eq!(
        parser.advance_bytes(b"\x1b*&4\x1bN@x"),
        vec![Action::Print('ю'), Action::Print('x')]
    );
    assert_eq!(
        parser.advance_bytes(b"\x1b)&4\x1b~\xc3\x80"),
        vec![Action::Print('ю')]
    );
}

#[test]
fn maps_dec_greek_supplemental_charset() {
    let mut parser = EscapeParser::default();

    assert_eq!(
        parser.advance_bytes(b"\x1b(\"?!\"#%()*+01235679:;<=?@ABCXYZ[\\]^_`abcxyz{|}~\x1b(B!"),
        vec![
            Action::Print('¡'),
            Action::Print('¢'),
            Action::Print('£'),
            Action::Print('¥'),
            Action::Print('¤'),
            Action::Print('©'),
            Action::Print('ª'),
            Action::Print('«'),
            Action::Print('°'),
            Action::Print('±'),
            Action::Print('²'),
            Action::Print('³'),
            Action::Print('µ'),
            Action::Print('¶'),
            Action::Print('·'),
            Action::Print('¹'),
            Action::Print('º'),
            Action::Print('»'),
            Action::Print('¼'),
            Action::Print('½'),
            Action::Print('¿'),
            Action::Print('ϊ'),
            Action::Print('Α'),
            Action::Print('Β'),
            Action::Print('Γ'),
            Action::Print('Ψ'),
            Action::Print('Ω'),
            Action::Print('ά'),
            Action::Print('έ'),
            Action::Print('ή'),
            Action::Print('ί'),
            Action::Print('␦'),
            Action::Print('ό'),
            Action::Print('ϋ'),
            Action::Print('α'),
            Action::Print('β'),
            Action::Print('γ'),
            Action::Print('ψ'),
            Action::Print('ω'),
            Action::Print('ς'),
            Action::Print('ύ'),
            Action::Print('ώ'),
            Action::Print('΄'),
            Action::Print('␦'),
            Action::Print('!'),
        ]
    );
    assert_eq!(
        parser.advance_bytes(b"\x1b*\"?\x1bN@x"),
        vec![Action::Print('ϊ'), Action::Print('x')]
    );
    assert_eq!(
        parser.advance_bytes(b"\x1b)\"?\x1b~\xc3\x80"),
        vec![Action::Print('ϊ')]
    );
}

#[test]
fn maps_dec_hebrew_supplemental_charset() {
    let mut parser = EscapeParser::default();

    assert_eq!(
        parser.advance_bytes(b"\x1b(\"4!\"#%()*+01235679:;<=?@_`abcxyz{|}~\x1b(B!"),
        vec![
            Action::Print('¡'),
            Action::Print('¢'),
            Action::Print('£'),
            Action::Print('¥'),
            Action::Print('¨'),
            Action::Print('©'),
            Action::Print('×'),
            Action::Print('«'),
            Action::Print('°'),
            Action::Print('±'),
            Action::Print('²'),
            Action::Print('³'),
            Action::Print('µ'),
            Action::Print('¶'),
            Action::Print('·'),
            Action::Print('¹'),
            Action::Print('÷'),
            Action::Print('»'),
            Action::Print('¼'),
            Action::Print('½'),
            Action::Print('¿'),
            Action::Print('␦'),
            Action::Print('␦'),
            Action::Print('א'),
            Action::Print('ב'),
            Action::Print('ג'),
            Action::Print('ד'),
            Action::Print('ר'),
            Action::Print('ש'),
            Action::Print('ת'),
            Action::Print('␦'),
            Action::Print('␦'),
            Action::Print('␦'),
            Action::Print('␦'),
            Action::Print('!'),
        ]
    );
    assert_eq!(
        parser.advance_bytes(b"\x1b*\"4\x1bN`x"),
        vec![Action::Print('א'), Action::Print('x')]
    );
    assert_eq!(
        parser.advance_bytes(b"\x1b)\"4\x1b~\xc3\xa0"),
        vec![Action::Print('א')]
    );
}

#[test]
fn maps_dec_turkish_supplemental_charset() {
    let mut parser = EscapeParser::default();

    assert_eq!(
        parser.advance_bytes(b"\x1b(%0!\"#%.>PW]^_`pw}~$\x1b(B!"),
        vec![
            Action::Print('¡'),
            Action::Print('¢'),
            Action::Print('£'),
            Action::Print('¥'),
            Action::Print('İ'),
            Action::Print('ı'),
            Action::Print('Ğ'),
            Action::Print('Œ'),
            Action::Print('Ÿ'),
            Action::Print('Ş'),
            Action::Print('ß'),
            Action::Print('à'),
            Action::Print('ğ'),
            Action::Print('œ'),
            Action::Print('ÿ'),
            Action::Print('ş'),
            Action::Print('␦'),
            Action::Print('!'),
        ]
    );
    assert_eq!(
        parser.advance_bytes(b"\x1b*%0\x1bN.x"),
        vec![Action::Print('İ'), Action::Print('x')]
    );
    assert_eq!(
        parser.advance_bytes(b"\x1b)%0\x1b~\xc2\xa1"),
        vec![Action::Print('¡')]
    );
}

#[test]
fn maps_g1_dec_special_graphics_with_locking_shift() {
    let mut parser = EscapeParser::default();

    assert_eq!(
        parser.advance_bytes(b"\x1b)0\x0elqk"),
        vec![Action::Print('┌'), Action::Print('─'), Action::Print('┐')]
    );
    assert_eq!(parser.advance_bytes(b"x"), vec![Action::Print('│')]);
    assert_eq!(parser.advance_bytes(b"\x0fx"), vec![Action::Print('x')]);
}

#[test]
fn maps_g2_and_g3_dec_special_graphics_with_locking_shift() {
    let mut parser = EscapeParser::default();

    assert_eq!(
        parser.advance_bytes(b"\x1b*0\x1bnlqk"),
        vec![Action::Print('┌'), Action::Print('─'), Action::Print('┐')]
    );
    assert_eq!(parser.advance_bytes(b"\x0fx"), vec![Action::Print('x')]);
    assert_eq!(
        parser.advance_bytes(b"\x1b+0\x1bomqj"),
        vec![Action::Print('└'), Action::Print('─'), Action::Print('┘')]
    );
    assert_eq!(parser.advance_bytes(b"\x0fx"), vec![Action::Print('x')]);
}

#[test]
fn maps_g2_and_g3_dec_special_graphics_with_single_shift() {
    let mut parser = EscapeParser::default();

    assert_eq!(
        parser.advance_bytes(b"\x1b*0\x1b+0\x1bNlx"),
        vec![Action::Print('┌'), Action::Print('x')]
    );
    assert_eq!(
        parser.advance_bytes(b"\x1bOmx"),
        vec![Action::Print('└'), Action::Print('x')]
    );
}

#[test]
fn maps_right_side_g_sets_with_locking_shift() {
    let mut parser = EscapeParser::default();

    assert_eq!(parser.advance_bytes(b"\xc3\xb1"), vec![Action::Print('ñ')]);
    assert_eq!(
        parser.advance_bytes(b"\x1b)0\x1b~\xc3\xb1q"),
        vec![Action::Print('─'), Action::Print('q')]
    );
    assert_eq!(
        parser.advance_bytes(b"\x1b*0\x1b}\xc3\xac"),
        vec![Action::Print('┌')]
    );
    assert_eq!(
        parser.advance_bytes(b"\x1b+A\x1b|\xc2\xa3"),
        vec![Action::Print('£')]
    );
}

#[test]
fn maps_british_nrcs_charset() {
    let mut parser = EscapeParser::default();

    assert_eq!(
        parser.advance_bytes(b"\x1b(A#x\x1b(B#"),
        vec![Action::Print('£'), Action::Print('x'), Action::Print('#')]
    );
    assert_eq!(
        parser.advance_bytes(b"\x1b*A\x1bN#x"),
        vec![Action::Print('£'), Action::Print('x')]
    );
}

#[test]
fn maps_german_nrcs_charset() {
    let mut parser = EscapeParser::default();

    assert_eq!(
        parser.advance_bytes(b"\x1b(K@[\\] {|}~\x1b(B@"),
        vec![
            Action::Print('§'),
            Action::Print('Ä'),
            Action::Print('Ö'),
            Action::Print('Ü'),
            Action::Print(' '),
            Action::Print('ä'),
            Action::Print('ö'),
            Action::Print('ü'),
            Action::Print('ß'),
            Action::Print('@'),
        ]
    );
    assert_eq!(
        parser.advance_bytes(b"\x1b*K\x1bN~x"),
        vec![Action::Print('ß'), Action::Print('x')]
    );
    assert_eq!(
        parser.advance_bytes(b"\x1b)K\x1b~\xc3\xbb"),
        vec![Action::Print('ä')]
    );
}

#[test]
fn maps_finnish_nrcs_charset() {
    let mut parser = EscapeParser::default();

    assert_eq!(
        parser.advance_bytes(b"\x1b(C[\\]^`{|}~\x1b(B["),
        vec![
            Action::Print('Ä'),
            Action::Print('Ö'),
            Action::Print('Å'),
            Action::Print('Ü'),
            Action::Print('é'),
            Action::Print('ä'),
            Action::Print('ö'),
            Action::Print('å'),
            Action::Print('ü'),
            Action::Print('['),
        ]
    );
    assert_eq!(
        parser.advance_bytes(b"\x1b*C\x1bN~x"),
        vec![Action::Print('ü'), Action::Print('x')]
    );
    assert_eq!(
        parser.advance_bytes(b"\x1b)C\x1b~\xc3\xbb"),
        vec![Action::Print('ä')]
    );
}

#[test]
fn maps_french_nrcs_charset() {
    let mut parser = EscapeParser::default();

    assert_eq!(
        parser.advance_bytes(b"\x1b(R#@[\\] {|}~\x1b(B#"),
        vec![
            Action::Print('£'),
            Action::Print('à'),
            Action::Print('°'),
            Action::Print('ç'),
            Action::Print('§'),
            Action::Print(' '),
            Action::Print('é'),
            Action::Print('ù'),
            Action::Print('è'),
            Action::Print('¨'),
            Action::Print('#'),
        ]
    );
    assert_eq!(
        parser.advance_bytes(b"\x1b*f\x1bN~x"),
        vec![Action::Print('¨'), Action::Print('x')]
    );
    assert_eq!(
        parser.advance_bytes(b"\x1b)R\x1b~\xc3\xbb"),
        vec![Action::Print('é')]
    );
}

#[test]
fn maps_italian_nrcs_charset() {
    let mut parser = EscapeParser::default();

    assert_eq!(
        parser.advance_bytes(b"\x1b(Y#@[\\]`{|}~\x1b(B#"),
        vec![
            Action::Print('£'),
            Action::Print('§'),
            Action::Print('°'),
            Action::Print('ç'),
            Action::Print('é'),
            Action::Print('ù'),
            Action::Print('à'),
            Action::Print('ò'),
            Action::Print('è'),
            Action::Print('ì'),
            Action::Print('#'),
        ]
    );
    assert_eq!(
        parser.advance_bytes(b"\x1b*Y\x1bN~x"),
        vec![Action::Print('ì'), Action::Print('x')]
    );
    assert_eq!(
        parser.advance_bytes(b"\x1b)Y\x1b~\xc3\xbb"),
        vec![Action::Print('à')]
    );
}

#[test]
fn maps_jis_roman_charset() {
    let mut parser = EscapeParser::default();

    assert_eq!(
        parser.advance_bytes(b"\x1b(J\\~\x1b(B\\"),
        vec![Action::Print('¥'), Action::Print('‾'), Action::Print('\\'),]
    );
    assert_eq!(
        parser.advance_bytes(b"\x1b*J\x1bN~x"),
        vec![Action::Print('‾'), Action::Print('x')]
    );
    assert_eq!(
        parser.advance_bytes(b"\x1b)J\x1b~\xc3\x9c"),
        vec![Action::Print('¥')]
    );
}

#[test]
fn maps_jis_katakana_charset() {
    let mut parser = EscapeParser::default();

    assert_eq!(
        parser.advance_bytes(b"\x1b(I!&1@Z[]^_\x1b(B!"),
        vec![
            Action::Print('｡'),
            Action::Print('ｦ'),
            Action::Print('ｱ'),
            Action::Print('ﾀ'),
            Action::Print('ﾚ'),
            Action::Print('ﾛ'),
            Action::Print('ﾝ'),
            Action::Print('ﾞ'),
            Action::Print('ﾟ'),
            Action::Print('!'),
        ]
    );
    assert_eq!(
        parser.advance_bytes(b"\x1b*I\x1bN_x"),
        vec![Action::Print('ﾟ'), Action::Print('x')]
    );
    assert_eq!(
        parser.advance_bytes(b"\x1b)I\x1b~\xc2\xa1"),
        vec![Action::Print('｡')]
    );
}

#[test]
fn maps_spanish_nrcs_charset() {
    let mut parser = EscapeParser::default();

    assert_eq!(
        parser.advance_bytes(b"\x1b(Z#@[\\] {|}~\x1b(B#"),
        vec![
            Action::Print('£'),
            Action::Print('§'),
            Action::Print('¡'),
            Action::Print('Ñ'),
            Action::Print('¿'),
            Action::Print(' '),
            Action::Print('°'),
            Action::Print('ñ'),
            Action::Print('ç'),
            Action::Print('~'),
            Action::Print('#'),
        ]
    );
    assert_eq!(
        parser.advance_bytes(b"\x1b*Z\x1bN}x"),
        vec![Action::Print('ç'), Action::Print('x')]
    );
    assert_eq!(
        parser.advance_bytes(b"\x1b)Z\x1b~\xc3\xbb"),
        vec![Action::Print('°')]
    );
}

#[test]
fn maps_dutch_nrcs_charset() {
    let mut parser = EscapeParser::default();

    assert_eq!(
        parser.advance_bytes(b"\x1b(4#@[\\] {|}~\x1b(B#"),
        vec![
            Action::Print('£'),
            Action::Print('¾'),
            Action::Print('ĳ'),
            Action::Print('½'),
            Action::Print('|'),
            Action::Print(' '),
            Action::Print('¨'),
            Action::Print('ƒ'),
            Action::Print('¼'),
            Action::Print('´'),
            Action::Print('#'),
        ]
    );
    assert_eq!(
        parser.advance_bytes(b"\x1b*4\x1bN~x"),
        vec![Action::Print('´'), Action::Print('x')]
    );
    assert_eq!(
        parser.advance_bytes(b"\x1b)4\x1b~\xc3\xbb"),
        vec![Action::Print('¨')]
    );
}

#[test]
fn maps_swedish_nrcs_charset() {
    let mut parser = EscapeParser::default();

    assert_eq!(
        parser.advance_bytes(b"\x1b(H@[\\]^`{|}~\x1b(B@"),
        vec![
            Action::Print('É'),
            Action::Print('Ä'),
            Action::Print('Ö'),
            Action::Print('Å'),
            Action::Print('Ü'),
            Action::Print('é'),
            Action::Print('ä'),
            Action::Print('ö'),
            Action::Print('å'),
            Action::Print('ü'),
            Action::Print('@'),
        ]
    );
    assert_eq!(
        parser.advance_bytes(b"\x1b*7\x1bN~x"),
        vec![Action::Print('ü'), Action::Print('x')]
    );
    assert_eq!(
        parser.advance_bytes(b"\x1b)H\x1b~\xc3\xbb"),
        vec![Action::Print('ä')]
    );
}

#[test]
fn maps_norwegian_danish_nrcs_charset() {
    let mut parser = EscapeParser::default();

    assert_eq!(
        parser.advance_bytes(b"\x1b(E@[\\]^`{|}~\x1b(B@"),
        vec![
            Action::Print('Ä'),
            Action::Print('Æ'),
            Action::Print('Ø'),
            Action::Print('Å'),
            Action::Print('Ü'),
            Action::Print('ä'),
            Action::Print('æ'),
            Action::Print('ø'),
            Action::Print('å'),
            Action::Print('ü'),
            Action::Print('@'),
        ]
    );
    assert_eq!(
        parser.advance_bytes(b"\x1b*6\x1bN~x"),
        vec![Action::Print('ü'), Action::Print('x')]
    );
    assert_eq!(
        parser.advance_bytes(b"\x1b)`\x1b~\xc3\xbb"),
        vec![Action::Print('æ')]
    );
}

#[test]
fn maps_french_canadian_nrcs_charset() {
    let mut parser = EscapeParser::default();

    assert_eq!(
        parser.advance_bytes(b"\x1b(Q#@[\\]^`{|}~\x1b(B@"),
        vec![
            Action::Print('#'),
            Action::Print('à'),
            Action::Print('â'),
            Action::Print('ç'),
            Action::Print('ê'),
            Action::Print('î'),
            Action::Print('ô'),
            Action::Print('é'),
            Action::Print('ù'),
            Action::Print('è'),
            Action::Print('û'),
            Action::Print('@'),
        ]
    );
    assert_eq!(
        parser.advance_bytes(b"\x1b*9\x1bN~x"),
        vec![Action::Print('û'), Action::Print('x')]
    );
    assert_eq!(
        parser.advance_bytes(b"\x1b)Q\x1b~\xc3\xbb"),
        vec![Action::Print('é')]
    );
}

#[test]
fn maps_swiss_nrcs_charset() {
    let mut parser = EscapeParser::default();

    assert_eq!(
        parser.advance_bytes(b"\x1b(=#@[\\]^_`{|}~\x1b(B#"),
        vec![
            Action::Print('ù'),
            Action::Print('à'),
            Action::Print('é'),
            Action::Print('ç'),
            Action::Print('ê'),
            Action::Print('î'),
            Action::Print('è'),
            Action::Print('ô'),
            Action::Print('ä'),
            Action::Print('ö'),
            Action::Print('ü'),
            Action::Print('û'),
            Action::Print('#'),
        ]
    );
    assert_eq!(
        parser.advance_bytes(b"\x1b*=\x1bN~x"),
        vec![Action::Print('û'), Action::Print('x')]
    );
    assert_eq!(
        parser.advance_bytes(b"\x1b)=\x1b~\xc3\xbb"),
        vec![Action::Print('ä')]
    );
}

#[test]
fn maps_portuguese_nrcs_charset() {
    let mut parser = EscapeParser::default();

    assert_eq!(
        parser.advance_bytes(b"\x1b(%6#[\\] {|}~\x1b(B["),
        vec![
            Action::Print('#'),
            Action::Print('Ã'),
            Action::Print('Ç'),
            Action::Print('Õ'),
            Action::Print(' '),
            Action::Print('ã'),
            Action::Print('ç'),
            Action::Print('õ'),
            Action::Print('~'),
            Action::Print('['),
        ]
    );
    assert_eq!(
        parser.advance_bytes(b"\x1b*%6\x1bN}x"),
        vec![Action::Print('õ'), Action::Print('x')]
    );
    assert_eq!(
        parser.advance_bytes(b"\x1b)%6\x1b~\xc3\xbb"),
        vec![Action::Print('ã')]
    );
}

#[test]
fn maps_greek_nrcs_charset() {
    let mut parser = EscapeParser::default();

    assert_eq!(parser.advance_bytes(b"\x1b(\">"), Vec::<Action>::new());
    assert_eq!(
        parser.advance_bytes(b"abcdefghijklmnopqrstuvwx\x1b(Ba"),
        vec![
            Action::Print('Α'),
            Action::Print('Β'),
            Action::Print('Γ'),
            Action::Print('Δ'),
            Action::Print('Ε'),
            Action::Print('Ζ'),
            Action::Print('Η'),
            Action::Print('Θ'),
            Action::Print('Ι'),
            Action::Print('Κ'),
            Action::Print('Λ'),
            Action::Print('Μ'),
            Action::Print('Ν'),
            Action::Print('Χ'),
            Action::Print('Ο'),
            Action::Print('Π'),
            Action::Print('Ρ'),
            Action::Print('Σ'),
            Action::Print('Τ'),
            Action::Print('Υ'),
            Action::Print('Φ'),
            Action::Print('Ξ'),
            Action::Print('Ψ'),
            Action::Print('Ω'),
            Action::Print('a'),
        ]
    );
    assert_eq!(
        parser.advance_bytes(b"\x1b*\">\x1bNxx"),
        vec![Action::Print('Ω'), Action::Print('x')]
    );
    assert_eq!(
        parser.advance_bytes(b"\x1b)\">\x1b~\xc3\xa1"),
        vec![Action::Print('Α')]
    );
}

#[test]
fn maps_hebrew_nrcs_charset() {
    let mut parser = EscapeParser::default();

    assert_eq!(
        parser.advance_bytes(b"\x1b(%=`abcdefghijklmnopqrstuvwxyz\x1b(B`"),
        vec![
            Action::Print('א'),
            Action::Print('ב'),
            Action::Print('ג'),
            Action::Print('ד'),
            Action::Print('ה'),
            Action::Print('ו'),
            Action::Print('ז'),
            Action::Print('ח'),
            Action::Print('ט'),
            Action::Print('י'),
            Action::Print('ך'),
            Action::Print('כ'),
            Action::Print('ל'),
            Action::Print('ם'),
            Action::Print('מ'),
            Action::Print('ן'),
            Action::Print('נ'),
            Action::Print('ס'),
            Action::Print('ע'),
            Action::Print('ף'),
            Action::Print('פ'),
            Action::Print('ץ'),
            Action::Print('צ'),
            Action::Print('ק'),
            Action::Print('ר'),
            Action::Print('ש'),
            Action::Print('ת'),
            Action::Print('`'),
        ]
    );
    assert_eq!(
        parser.advance_bytes(b"\x1b*%=\x1bNzx"),
        vec![Action::Print('ת'), Action::Print('x')]
    );
    assert_eq!(
        parser.advance_bytes(b"\x1b)%=\x1b~\xc3\xa0"),
        vec![Action::Print('א')]
    );
}

#[test]
fn maps_turkish_nrcs_charset() {
    let mut parser = EscapeParser::default();

    assert_eq!(
        parser.advance_bytes(b"\x1b(%2&@[\\]^`{|}~\x1b(B&"),
        vec![
            Action::Print('ğ'),
            Action::Print('İ'),
            Action::Print('Ş'),
            Action::Print('Ö'),
            Action::Print('Ç'),
            Action::Print('Ü'),
            Action::Print('Ğ'),
            Action::Print('ş'),
            Action::Print('ö'),
            Action::Print('ç'),
            Action::Print('ü'),
            Action::Print('&'),
        ]
    );
    assert_eq!(
        parser.advance_bytes(b"\x1b*%2\x1bN~x"),
        vec![Action::Print('ü'), Action::Print('x')]
    );
    assert_eq!(
        parser.advance_bytes(b"\x1b)%2\x1b~\xc2\xa6"),
        vec![Action::Print('ğ')]
    );
}

#[test]
fn maps_russian_nrcs_charset() {
    let mut parser = EscapeParser::default();

    assert_eq!(
        parser.advance_bytes(b"\x1b(&5`abcdefghijklmnopqrstuvwxyz{|}~\x1b(B`"),
        vec![
            Action::Print('Ю'),
            Action::Print('А'),
            Action::Print('Б'),
            Action::Print('Ц'),
            Action::Print('Д'),
            Action::Print('Е'),
            Action::Print('Ф'),
            Action::Print('Г'),
            Action::Print('Х'),
            Action::Print('И'),
            Action::Print('Й'),
            Action::Print('К'),
            Action::Print('Л'),
            Action::Print('М'),
            Action::Print('Н'),
            Action::Print('О'),
            Action::Print('П'),
            Action::Print('Я'),
            Action::Print('Р'),
            Action::Print('С'),
            Action::Print('Т'),
            Action::Print('У'),
            Action::Print('Ж'),
            Action::Print('В'),
            Action::Print('Ь'),
            Action::Print('Ы'),
            Action::Print('З'),
            Action::Print('Ш'),
            Action::Print('Э'),
            Action::Print('Щ'),
            Action::Print('Ч'),
            Action::Print('`'),
        ]
    );
    assert_eq!(
        parser.advance_bytes(b"\x1b*&5\x1bN~x"),
        vec![Action::Print('Ч'), Action::Print('x')]
    );
    assert_eq!(
        parser.advance_bytes(b"\x1b)&5\x1b~\xc3\xa0"),
        vec![Action::Print('Ю')]
    );
}

#[test]
fn maps_serbo_croatian_nrcs_charset() {
    let mut parser = EscapeParser::default();

    assert_eq!(
        parser.advance_bytes(b"\x1b(%3@[\\]^`{|}~\x1b(B@"),
        vec![
            Action::Print('Ž'),
            Action::Print('Š'),
            Action::Print('Đ'),
            Action::Print('Ć'),
            Action::Print('Č'),
            Action::Print('ž'),
            Action::Print('š'),
            Action::Print('đ'),
            Action::Print('ć'),
            Action::Print('č'),
            Action::Print('@'),
        ]
    );
    assert_eq!(
        parser.advance_bytes(b"\x1b*%3\x1bN~x"),
        vec![Action::Print('č'), Action::Print('x')]
    );
    assert_eq!(
        parser.advance_bytes(b"\x1b)%3\x1b~\xc3\xa0"),
        vec![Action::Print('ž')]
    );
}

#[test]
fn parses_erase_modes() {
    let mut parser = EscapeParser::default();
    assert_eq!(parser.advance('\u{1b}'), None);
    assert_eq!(parser.advance('['), None);
    assert_eq!(parser.advance('2'), None);
    assert_eq!(
        parser.advance('K'),
        Some(Action::ClearLine(LineClearMode::Entire))
    );

    assert_eq!(parser.advance('\u{1b}'), None);
    assert_eq!(parser.advance('['), None);
    assert_eq!(parser.advance('1'), None);
    assert_eq!(
        parser.advance('J'),
        Some(Action::ClearScreen(ScreenClearMode::ToCursor))
    );
}

#[test]
fn parses_save_and_restore_cursor() {
    let mut parser = EscapeParser::default();
    assert_eq!(parser.advance('\u{1b}'), None);
    assert_eq!(parser.advance('7'), Some(Action::SaveCursor));
    assert_eq!(parser.advance('\u{1b}'), None);
    assert_eq!(parser.advance('8'), Some(Action::RestoreCursor));
}

#[test]
fn parses_application_keypad_modes() {
    let mut parser = EscapeParser::default();
    assert_eq!(
        parser.advance_bytes(b"\x1b="),
        vec![Action::SetApplicationKeypad(true)]
    );
    assert_eq!(
        parser.advance_bytes(b"\x1b>"),
        vec![Action::SetApplicationKeypad(false)]
    );
}

#[test]
fn parses_alternate_screen_private_modes() {
    let mut parser = EscapeParser::default();
    assert_eq!(parser.advance('\u{1b}'), None);
    assert_eq!(parser.advance('['), None);
    assert_eq!(parser.advance('?'), None);
    assert_eq!(parser.advance('1'), None);
    assert_eq!(parser.advance('0'), None);
    assert_eq!(parser.advance('4'), None);
    assert_eq!(parser.advance('9'), None);
    assert_eq!(parser.advance('h'), Some(Action::EnterAlternateScreen));

    assert_eq!(parser.advance('\u{1b}'), None);
    assert_eq!(parser.advance('['), None);
    assert_eq!(parser.advance('?'), None);
    assert_eq!(parser.advance('1'), None);
    assert_eq!(parser.advance('0'), None);
    assert_eq!(parser.advance('4'), None);
    assert_eq!(parser.advance('9'), None);
    assert_eq!(parser.advance('l'), Some(Action::ExitAlternateScreen));
}

#[test]
fn ignores_other_private_modes() {
    let mut parser = EscapeParser::default();
    assert_eq!(parser.advance('\u{1b}'), None);
    assert_eq!(parser.advance('['), None);
    assert_eq!(parser.advance('?'), None);
    assert_eq!(parser.advance('1'), None);
    assert_eq!(parser.advance('0'), None);
    assert_eq!(parser.advance('0'), None);
    assert_eq!(parser.advance('5'), None);
    assert_eq!(parser.advance('h'), Some(Action::Ignore));
}

#[test]
fn parses_tui_private_modes() {
    let mut parser = EscapeParser::default();
    assert_eq!(
        parser.advance_bytes(b"\x1b[?25l"),
        vec![Action::SetCursorVisible(false)]
    );
    assert_eq!(
        parser.advance_bytes(b"\x1b[?25h"),
        vec![Action::SetCursorVisible(true)]
    );
    assert_eq!(
        parser.advance_bytes(b"\x1b[?2004h"),
        vec![Action::SetBracketedPaste(true)]
    );
    assert_eq!(
        parser.advance_bytes(b"\x1b[?1h"),
        vec![Action::SetApplicationCursorKeys(true)]
    );
    assert_eq!(
        parser.advance_bytes(b"\x1b[?1000h"),
        vec![Action::SetMouseReporting(true)]
    );
    assert_eq!(
        parser.advance_bytes(b"\x1b[?1006h"),
        vec![Action::SetSgrMouse(true)]
    );
}

#[test]
fn parses_sgr_parameters() {
    let mut parser = EscapeParser::default();
    assert_eq!(parser.advance('\u{1b}'), None);
    assert_eq!(parser.advance('['), None);
    assert_eq!(parser.advance('1'), None);
    assert_eq!(parser.advance(';'), None);
    assert_eq!(parser.advance('3'), None);
    assert_eq!(parser.advance('1'), None);
    assert_eq!(
        parser.advance('m'),
        Some(Action::SetGraphicRendition(vec![1, 31]))
    );
}

#[test]
fn parses_tui_editing_sequences() {
    let mut parser = EscapeParser::default();
    assert_eq!(
        parser.advance_bytes(b"\x1b[2@"),
        vec![Action::InsertBlankChars(2)]
    );
    assert_eq!(
        parser.advance_bytes(b"\x1b[3P"),
        vec![Action::DeleteChars(3)]
    );
    assert_eq!(
        parser.advance_bytes(b"\x1b[4X"),
        vec![Action::EraseChars(4)]
    );
    assert_eq!(
        parser.advance_bytes(b"\x1b[2L"),
        vec![Action::InsertLines(2)]
    );
    assert_eq!(
        parser.advance_bytes(b"\x1b[2M"),
        vec![Action::DeleteLines(2)]
    );
    assert_eq!(
        parser.advance_bytes(b"\x1b[2;4r"),
        vec![Action::SetScrollRegion(Some((1, 3)))]
    );
}

#[test]
fn parses_device_status_reports() {
    let mut parser = EscapeParser::default();
    assert_eq!(
        parser.advance_bytes(b"\x1b[5n"),
        vec![Action::DeviceStatusReport]
    );
    assert_eq!(
        parser.advance_bytes(b"\x1b[6n"),
        vec![Action::CursorPositionReport]
    );
    assert_eq!(parser.advance_bytes(b"\x1b[9n"), vec![Action::Ignore]);
}

#[test]
fn parses_primary_device_attributes() {
    let mut parser = EscapeParser::default();
    assert_eq!(
        parser.advance_bytes(b"\x1b[c"),
        vec![Action::PrimaryDeviceAttributes]
    );
    assert_eq!(
        parser.advance_bytes(b"\x1b[0c"),
        vec![Action::PrimaryDeviceAttributes]
    );
}

#[test]
fn parses_secondary_device_attributes() {
    let mut parser = EscapeParser::default();
    assert_eq!(
        parser.advance_bytes(b"\x1b[>c"),
        vec![Action::SecondaryDeviceAttributes]
    );
    assert_eq!(
        parser.advance_bytes(b"\x1b[>0c"),
        vec![Action::SecondaryDeviceAttributes]
    );
}

#[test]
fn parses_cursor_style_sequences() {
    let mut parser = EscapeParser::default();
    assert_eq!(
        parser.advance_bytes(b"\x1b[2 q"),
        vec![Action::SetCursorStyle(CursorStyle::Block)]
    );
    assert_eq!(
        parser.advance_bytes(b"\x1b[4 q"),
        vec![Action::SetCursorStyle(CursorStyle::Underline)]
    );
    assert_eq!(
        parser.advance_bytes(b"\x1b[6 q"),
        vec![Action::SetCursorStyle(CursorStyle::Bar)]
    );
    assert_eq!(parser.advance_bytes(b"\x1b[9 q"), vec![Action::Ignore]);
}
