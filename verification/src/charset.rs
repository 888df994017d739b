use vstd::prelude::*;

verus! {

/// The character set designations a terminal can switch between.
#[derive(Clone, Copy, Debug, PartialEq, Eq, Structural)]
pub enum Charset {
    Ascii,
    British,
    DecCyrillic,
    DecGreekSupplemental,
    DecHebrewSupplemental,
    DecSupplementalGraphics,
    DecSpecialGraphics,
    DecTechnical,
    DecTurkishSupplemental,
    Dutch,
    Finnish,
    French,
    FrenchCanadian,
    German,
    Greek,
    Hebrew,
    Italian,
    JisKatakana,
    JisRoman,
    NorwegianDanish,
    Portuguese,
    Russian,
    SerboCroatian,
    Spanish,
    Swedish,
    Swiss,
    Turkish,
}

/// The character whose scalar value is `code`.
pub open spec fn char_with_code(code: int) -> char {
    (code as u32) as char
}

/// Whether `code` is a Unicode scalar value.
pub open spec fn is_scalar_value(code: u32) -> bool {
    code <= 0x10FFFF && !(0xD800 <= code <= 0xDFFF)
}

/// `char::from_u32`.
///
/// Trusted: std documents that it returns the character with the given
/// scalar value, and `None` for surrogates and values past `0x10FFFF`;
/// the contract states exactly that.
#[verifier::external_body]
pub(crate) fn char_from_u32(code: u32) -> (r: Option<char>)
    ensures
        r is Some <==> is_scalar_value(code),
        r matches Some(c) ==> c as u32 == code,
{
    char::from_u32(code)
}

/// The graphic-right counterpart of a printable ASCII character (`0x80` above it).
pub fn shifted_to_gr(ch: char) -> (r: char)
    requires
        '!' <= ch <= '~',
    ensures
        r == char_with_code(ch as u32 + 0x80),
{
    let code = ch as u32 + 0x80;
    match char_from_u32(code) {
        Some(c) => {
            proof {
                vstd::utf8::char_u32_cast(c, code);
            }
            c
        },
        None => ch,
    }
}

/// The halfwidth katakana that JIS X 0201 places at a printable ASCII position.
pub fn katakana_for(ch: char) -> (r: char)
    requires
        '!' <= ch <= '_',
    ensures
        r == char_with_code(0xff61 + (ch as u32 - 0x21)),
{
    let code = 0xff61 + (ch as u32 - 0x21);
    match char_from_u32(code) {
        Some(c) => {
            proof {
                vstd::utf8::char_u32_cast(c, code);
            }
            c
        },
        None => ch,
    }
}

/// The DecTurkishSupplemental character set, as a map from the printable ASCII positions.
pub open spec fn dec_turkish_supplemental_char(ch: char) -> char {
    match ch {
        '$' | '&' | ',' | '-' | '/' | '4' | '8' => '␦',
        '.' => 'İ',
        '>' => 'ı',
        'P' => 'Ğ',
        'W' => 'Œ',
        ']' => 'Ÿ',
        '^' => 'Ş',
        'p' => 'ğ',
        'w' => 'œ',
        '}' => 'ÿ',
        '~' => 'ş',
        '!'..='~' => char_with_code(ch as u32 + 0x80),
        _ => ch,
    }
}

pub fn map_dec_turkish_supplemental(ch: char) -> (r: char)
    ensures
        r == dec_turkish_supplemental_char(ch),
{
    match ch {
        '$' | '&' | ',' | '-' | '/' | '4' | '8' => '␦',
        '.' => 'İ',
        '>' => 'ı',
        'P' => 'Ğ',
        'W' => 'Œ',
        ']' => 'Ÿ',
        '^' => 'Ş',
        'p' => 'ğ',
        'w' => 'œ',
        '}' => 'ÿ',
        '~' => 'ş',
        '!'..='~' => shifted_to_gr(ch),
        _ => ch,
    }
}

/// The DecHebrewSupplemental character set, as a map from the printable ASCII positions.
pub open spec fn dec_hebrew_supplemental_char(ch: char) -> char {
    match ch {
        '!' => '¡',
        '"' => '¢',
        '#' => '£',
        '$' | '&' | ',' | '-' | '.' | '/' | '4' | '8' | '>' | '@'..='_' | '{'..='~' => '␦',
        '%' => '¥',
        '\'' => '§',
        '(' => '¨',
        ')' => '©',
        '*' => '×',
        '+' => '«',
        '0' => '°',
        '1' => '±',
        '2' => '²',
        '3' => '³',
        '5' => 'µ',
        '6' => '¶',
        '7' => '·',
        '9' => '¹',
        ':' => '÷',
        ';' => '»',
        '<' => '¼',
        '=' => '½',
        '?' => '¿',
        '`' => 'א',
        'a' => 'ב',
        'b' => 'ג',
        'c' => 'ד',
        'd' => 'ה',
        'e' => 'ו',
        'f' => 'ז',
        'g' => 'ח',
        'h' => 'ט',
        'i' => 'י',
        'j' => 'ך',
        'k' => 'כ',
        'l' => 'ל',
        'm' => 'ם',
        'n' => 'מ',
        'o' => 'ן',
        'p' => 'נ',
        'q' => 'ס',
        'r' => 'ע',
        's' => 'ף',
        't' => 'פ',
        'u' => 'ץ',
        'v' => 'צ',
        'w' => 'ק',
        'x' => 'ר',
        'y' => 'ש',
        'z' => 'ת',
        _ => ch,
    }
}

pub fn map_dec_hebrew_supplemental(ch: char) -> (r: char)
    ensures
        r == dec_hebrew_supplemental_char(ch),
{
    match ch {
        '!' => '¡',
        '"' => '¢',
        '#' => '£',
        '$' | '&' | ',' | '-' | '.' | '/' | '4' | '8' | '>' | '@'..='_' | '{'..='~' => '␦',
        '%' => '¥',
        '\'' => '§',
        '(' => '¨',
        ')' => '©',
        '*' => '×',
        '+' => '«',
        '0' => '°',
        '1' => '±',
        '2' => '²',
        '3' => '³',
        '5' => 'µ',
        '6' => '¶',
        '7' => '·',
        '9' => '¹',
        ':' => '÷',
        ';' => '»',
        '<' => '¼',
        '=' => '½',
        '?' => '¿',
        '`' => 'א',
        'a' => 'ב',
        'b' => 'ג',
        'c' => 'ד',
        'd' => 'ה',
        'e' => 'ו',
        'f' => 'ז',
        'g' => 'ח',
        'h' => 'ט',
        'i' => 'י',
        'j' => 'ך',
        'k' => 'כ',
        'l' => 'ל',
        'm' => 'ם',
        'n' => 'מ',
        'o' => 'ן',
        'p' => 'נ',
        'q' => 'ס',
        'r' => 'ע',
        's' => 'ף',
        't' => 'פ',
        'u' => 'ץ',
        'v' => 'צ',
        'w' => 'ק',
        'x' => 'ר',
        'y' => 'ש',
        'z' => 'ת',
        _ => ch,
    }
}

/// The DecGreekSupplemental character set, as a map from the printable ASCII positions.
pub open spec fn dec_greek_supplemental_char(ch: char) -> char {
    match ch {
        '!' => '¡',
        '"' => '¢',
        '#' => '£',
        '$' | '&' | ',' | '-' | '.' | '/' | '4' | '8' | '>' | 'P' | '^' | 'p' | '~' => '␦',
        '%' => '¥',
        '\'' => '§',
        '(' => '¤',
        ')' => '©',
        '*' => 'ª',
        '+' => '«',
        '0' => '°',
        '1' => '±',
        '2' => '²',
        '3' => '³',
        '5' => 'µ',
        '6' => '¶',
        '7' => '·',
        '9' => '¹',
        ':' => 'º',
        ';' => '»',
        '<' => '¼',
        '=' => '½',
        '?' => '¿',
        '@' => 'ϊ',
        'A' => 'Α',
        'B' => 'Β',
        'C' => 'Γ',
        'D' => 'Δ',
        'E' => 'Ε',
        'F' => 'Ζ',
        'G' => 'Η',
        'H' => 'Θ',
        'I' => 'Ι',
        'J' => 'Κ',
        'K' => 'Λ',
        'L' => 'Μ',
        'M' => 'Ν',
        'N' => 'Ξ',
        'O' => 'Ο',
        'Q' => 'Π',
        'R' => 'Ρ',
        'S' => 'Σ',
        'T' => 'Τ',
        'U' => 'Υ',
        'V' => 'Φ',
        'W' => 'Χ',
        'X' => 'Ψ',
        'Y' => 'Ω',
        'Z' => 'ά',
        '[' => 'έ',
        '\\' => 'ή',
        ']' => 'ί',
        '_' => 'ό',
        '`' => 'ϋ',
        'a' => 'α',
        'b' => 'β',
        'c' => 'γ',
        'd' => 'δ',
        'e' => 'ε',
        'f' => 'ζ',
        'g' => 'η',
        'h' => 'θ',
        'i' => 'ι',
        'j' => 'κ',
        'k' => 'λ',
        'l' => 'μ',
        'm' => 'ν',
        'n' => 'ξ',
        'o' => 'ο',
        'q' => 'π',
        'r' => 'ρ',
        's' => 'σ',
        't' => 'τ',
        'u' => 'υ',
        'v' => 'φ',
        'w' => 'χ',
        'x' => 'ψ',
        'y' => 'ω',
        'z' => 'ς',
        '{' => 'ύ',
        '|' => 'ώ',
        '}' => '΄',
        _ => ch,
    }
}

pub fn map_dec_greek_supplemental(ch: char) -> (r: char)
    ensures
        r == dec_greek_supplemental_char(ch),
{
    match ch {
        '!' => '¡',
        '"' => '¢',
        '#' => '£',
        '$' | '&' | ',' | '-' | '.' | '/' | '4' | '8' | '>' | 'P' | '^' | 'p' | '~' => '␦',
        '%' => '¥',
        '\'' => '§',
        '(' => '¤',
        ')' => '©',
        '*' => 'ª',
        '+' => '«',
        '0' => '°',
        '1' => '±',
        '2' => '²',
        '3' => '³',
        '5' => 'µ',
        '6' => '¶',
        '7' => '·',
        '9' => '¹',
        ':' => 'º',
        ';' => '»',
        '<' => '¼',
        '=' => '½',
        '?' => '¿',
        '@' => 'ϊ',
        'A' => 'Α',
        'B' => 'Β',
        'C' => 'Γ',
        'D' => 'Δ',
        'E' => 'Ε',
        'F' => 'Ζ',
        'G' => 'Η',
        'H' => 'Θ',
        'I' => 'Ι',
        'J' => 'Κ',
        'K' => 'Λ',
        'L' => 'Μ',
        'M' => 'Ν',
        'N' => 'Ξ',
        'O' => 'Ο',
        'Q' => 'Π',
        'R' => 'Ρ',
        'S' => 'Σ',
        'T' => 'Τ',
        'U' => 'Υ',
        'V' => 'Φ',
        'W' => 'Χ',
        'X' => 'Ψ',
        'Y' => 'Ω',
        'Z' => 'ά',
        '[' => 'έ',
        '\\' => 'ή',
        ']' => 'ί',
        '_' => 'ό',
        '`' => 'ϋ',
        'a' => 'α',
        'b' => 'β',
        'c' => 'γ',
        'd' => 'δ',
        'e' => 'ε',
        'f' => 'ζ',
        'g' => 'η',
        'h' => 'θ',
        'i' => 'ι',
        'j' => 'κ',
        'k' => 'λ',
        'l' => 'μ',
        'm' => 'ν',
        'n' => 'ξ',
        'o' => 'ο',
        'q' => 'π',
        'r' => 'ρ',
        's' => 'σ',
        't' => 'τ',
        'u' => 'υ',
        'v' => 'φ',
        'w' => 'χ',
        'x' => 'ψ',
        'y' => 'ω',
        'z' => 'ς',
        '{' => 'ύ',
        '|' => 'ώ',
        '}' => '΄',
        _ => ch,
    }
}

/// The DecCyrillic character set, as a map from the printable ASCII positions.
pub open spec fn dec_cyrillic_char(ch: char) -> char {
    match ch {
        '!'..='?' => '␦',
        '@' => 'ю',
        'A' => 'а',
        'B' => 'б',
        'C' => 'ц',
        'D' => 'д',
        'E' => 'е',
        'F' => 'ф',
        'G' => 'г',
        'H' => 'х',
        'I' => 'и',
        'J' => 'й',
        'K' => 'к',
        'L' => 'л',
        'M' => 'м',
        'N' => 'н',
        'O' => 'о',
        'P' => 'п',
        'Q' => 'я',
        'R' => 'р',
        'S' => 'с',
        'T' => 'т',
        'U' => 'у',
        'V' => 'ж',
        'W' => 'в',
        'X' => 'ь',
        'Y' => 'ы',
        'Z' => 'з',
        '[' => 'ш',
        '\\' => 'э',
        ']' => 'щ',
        '^' => 'ч',
        '_' => 'ъ',
        '`' => 'Ю',
        'a' => 'А',
        'b' => 'Б',
        'c' => 'Ц',
        'd' => 'Д',
        'e' => 'Е',
        'f' => 'Ф',
        'g' => 'Г',
        'h' => 'Х',
        'i' => 'И',
        'j' => 'Й',
        'k' => 'К',
        'l' => 'Л',
        'm' => 'М',
        'n' => 'Н',
        'o' => 'О',
        'p' => 'П',
        'q' => 'Я',
        'r' => 'Р',
        's' => 'С',
        't' => 'Т',
        'u' => 'У',
        'v' => 'Ж',
        'w' => 'В',
        'x' => 'Ь',
        'y' => 'Ы',
        'z' => 'З',
        '{' => 'Ш',
        '|' => 'Э',
        '}' => 'Щ',
        '~' => 'Ч',
        _ => ch,
    }
}

pub fn map_dec_cyrillic(ch: char) -> (r: char)
    ensures
        r == dec_cyrillic_char(ch),
{
    match ch {
        '!'..='?' => '␦',
        '@' => 'ю',
        'A' => 'а',
        'B' => 'б',
        'C' => 'ц',
        'D' => 'д',
        'E' => 'е',
        'F' => 'ф',
        'G' => 'г',
        'H' => 'х',
        'I' => 'и',
        'J' => 'й',
        'K' => 'к',
        'L' => 'л',
        'M' => 'м',
        'N' => 'н',
        'O' => 'о',
        'P' => 'п',
        'Q' => 'я',
        'R' => 'р',
        'S' => 'с',
        'T' => 'т',
        'U' => 'у',
        'V' => 'ж',
        'W' => 'в',
        'X' => 'ь',
        'Y' => 'ы',
        'Z' => 'з',
        '[' => 'ш',
        '\\' => 'э',
        ']' => 'щ',
        '^' => 'ч',
        '_' => 'ъ',
        '`' => 'Ю',
        'a' => 'А',
        'b' => 'Б',
        'c' => 'Ц',
        'd' => 'Д',
        'e' => 'Е',
        'f' => 'Ф',
        'g' => 'Г',
        'h' => 'Х',
        'i' => 'И',
        'j' => 'Й',
        'k' => 'К',
        'l' => 'Л',
        'm' => 'М',
        'n' => 'Н',
        'o' => 'О',
        'p' => 'П',
        'q' => 'Я',
        'r' => 'Р',
        's' => 'С',
        't' => 'Т',
        'u' => 'У',
        'v' => 'Ж',
        'w' => 'В',
        'x' => 'Ь',
        'y' => 'Ы',
        'z' => 'З',
        '{' => 'Ш',
        '|' => 'Э',
        '}' => 'Щ',
        '~' => 'Ч',
        _ => ch,
    }
}

/// The DecTechnical character set, as a map from the printable ASCII positions.
pub open spec fn dec_technical_char(ch: char) -> char {
    match ch {
        '!' => '⎷',
        '"' => '┌',
        '#' => '─',
        '$' => '⌠',
        '%' => '⌡',
        '&' => '│',
        '\'' => '⎡',
        '(' => '⎣',
        ')' => '⎤',
        '*' => '⎦',
        '+' => '⎧',
        ',' => '⎩',
        '-' => '⎫',
        '.' => '⎭',
        '/' => '⎨',
        '0' => '⎬',
        '1'..=';' => '␦',
        '<' => '≤',
        '=' => '≠',
        '>' => '≥',
        '?' => '∫',
        '@' => '∴',
        'A' => '∝',
        'B' => '∞',
        'C' => '÷',
        'D' => 'Δ',
        'E' => '∇',
        'F' => 'Φ',
        'G' => 'Γ',
        'H' => '∼',
        'I' => '≃',
        'J' => 'Θ',
        'K' => '×',
        'L' => 'Λ',
        'M' => '⇔',
        'N' => '⇒',
        'O' => '≡',
        'P' => 'Π',
        'Q' => 'Ψ',
        'R' | 'T' | 'U' => '␦',
        'S' => 'Σ',
        'V' => '√',
        'W' => 'Ω',
        'X' => 'Ξ',
        'Y' => 'Υ',
        'Z' => '⊂',
        '[' => '⊃',
        '\\' => '∩',
        ']' => '∪',
        '^' => '∧',
        '_' => '∨',
        '`' => '¬',
        'a' => 'α',
        'b' => 'β',
        'c' => 'χ',
        'd' => 'δ',
        'e' => 'ε',
        'f' => 'φ',
        'g' => 'γ',
        'h' => 'η',
        'i' => 'ι',
        'j' => 'θ',
        'k' => 'κ',
        'l' => 'λ',
        'm' | 'u' => '␦',
        'n' => 'ν',
        'o' => '∂',
        'p' => 'π',
        'q' => 'ψ',
        'r' => 'ρ',
        's' => 'σ',
        't' => 'τ',
        'v' => 'ƒ',
        'w' => 'ω',
        'x' => 'ξ',
        'y' => 'υ',
        'z' => 'ζ',
        '{' => '←',
        '|' => '↑',
        '}' => '→',
        '~' => '↓',
        _ => ch,
    }
}

pub fn map_dec_technical(ch: char) -> (r: char)
    ensures
        r == dec_technical_char(ch),
{
    match ch {
        '!' => '⎷',
        '"' => '┌',
        '#' => '─',
        '$' => '⌠',
        '%' => '⌡',
        '&' => '│',
        '\'' => '⎡',
        '(' => '⎣',
        ')' => '⎤',
        '*' => '⎦',
        '+' => '⎧',
        ',' => '⎩',
        '-' => '⎫',
        '.' => '⎭',
        '/' => '⎨',
        '0' => '⎬',
        '1'..=';' => '␦',
        '<' => '≤',
        '=' => '≠',
        '>' => '≥',
        '?' => '∫',
        '@' => '∴',
        'A' => '∝',
        'B' => '∞',
        'C' => '÷',
        'D' => 'Δ',
        'E' => '∇',
        'F' => 'Φ',
        'G' => 'Γ',
        'H' => '∼',
        'I' => '≃',
        'J' => 'Θ',
        'K' => '×',
        'L' => 'Λ',
        'M' => '⇔',
        'N' => '⇒',
        'O' => '≡',
        'P' => 'Π',
        'Q' => 'Ψ',
        'R' | 'T' | 'U' => '␦',
        'S' => 'Σ',
        'V' => '√',
        'W' => 'Ω',
        'X' => 'Ξ',
        'Y' => 'Υ',
        'Z' => '⊂',
        '[' => '⊃',
        '\\' => '∩',
        ']' => '∪',
        '^' => '∧',
        '_' => '∨',
        '`' => '¬',
        'a' => 'α',
        'b' => 'β',
        'c' => 'χ',
        'd' => 'δ',
        'e' => 'ε',
        'f' => 'φ',
        'g' => 'γ',
        'h' => 'η',
        'i' => 'ι',
        'j' => 'θ',
        'k' => 'κ',
        'l' => 'λ',
        'm' | 'u' => '␦',
        'n' => 'ν',
        'o' => '∂',
        'p' => 'π',
        'q' => 'ψ',
        'r' => 'ρ',
        's' => 'σ',
        't' => 'τ',
        'v' => 'ƒ',
        'w' => 'ω',
        'x' => 'ξ',
        'y' => 'υ',
        'z' => 'ζ',
        '{' => '←',
        '|' => '↑',
        '}' => '→',
        '~' => '↓',
        _ => ch,
    }
}

/// The DecSupplementalGraphics character set, as a map from the printable ASCII positions.
pub open spec fn dec_supplemental_graphics_char(ch: char) -> char {
    match ch {
        '$' | '&' | ',' | '-' | '.' | '/' | '4' | '8' | '>' | 'P' | '^' | 'p' | '~' => '␦',
        '(' => '¤',
        'W' => 'Œ',
        ']' => 'Ÿ',
        '_' => '_',
        'w' => 'œ',
        '}' => 'ÿ',
        '!'..='~' => char_with_code(ch as u32 + 0x80),
        _ => ch,
    }
}

pub fn map_dec_supplemental_graphics(ch: char) -> (r: char)
    ensures
        r == dec_supplemental_graphics_char(ch),
{
    match ch {
        '$' | '&' | ',' | '-' | '.' | '/' | '4' | '8' | '>' | 'P' | '^' | 'p' | '~' => '␦',
        '(' => '¤',
        'W' => 'Œ',
        ']' => 'Ÿ',
        '_' => '_',
        'w' => 'œ',
        '}' => 'ÿ',
        '!'..='~' => shifted_to_gr(ch),
        _ => ch,
    }
}

/// The British character set, as a map from the printable ASCII positions.
pub open spec fn british_char(ch: char) -> char {
    match ch {
        '#' => '£',
        _ => ch,
    }
}

pub fn map_british(ch: char) -> (r: char)
    ensures
        r == british_char(ch),
{
    match ch {
        '#' => '£',
        _ => ch,
    }
}

/// The German character set, as a map from the printable ASCII positions.
pub open spec fn german_char(ch: char) -> char {
    match ch {
        '@' => '§',
        '[' => 'Ä',
        '\\' => 'Ö',
        ']' => 'Ü',
        '{' => 'ä',
        '|' => 'ö',
        '}' => 'ü',
        '~' => 'ß',
        _ => ch,
    }
}

pub fn map_german(ch: char) -> (r: char)
    ensures
        r == german_char(ch),
{
    match ch {
        '@' => '§',
        '[' => 'Ä',
        '\\' => 'Ö',
        ']' => 'Ü',
        '{' => 'ä',
        '|' => 'ö',
        '}' => 'ü',
        '~' => 'ß',
        _ => ch,
    }
}

/// The Dutch character set, as a map from the printable ASCII positions.
pub open spec fn dutch_char(ch: char) -> char {
    match ch {
        '#' => '£',
        '@' => '¾',
        '[' => 'ĳ',
        '\\' => '½',
        ']' => '|',
        '{' => '¨',
        '|' => 'ƒ',
        '}' => '¼',
        '~' => '´',
        _ => ch,
    }
}

pub fn map_dutch(ch: char) -> (r: char)
    ensures
        r == dutch_char(ch),
{
    match ch {
        '#' => '£',
        '@' => '¾',
        '[' => 'ĳ',
        '\\' => '½',
        ']' => '|',
        '{' => '¨',
        '|' => 'ƒ',
        '}' => '¼',
        '~' => '´',
        _ => ch,
    }
}

/// The Finnish character set, as a map from the printable ASCII positions.
pub open spec fn finnish_char(ch: char) -> char {
    match ch {
        '[' => 'Ä',
        '\\' => 'Ö',
        ']' => 'Å',
        '^' => 'Ü',
        '`' => 'é',
        '{' => 'ä',
        '|' => 'ö',
        '}' => 'å',
        '~' => 'ü',
        _ => ch,
    }
}

pub fn map_finnish(ch: char) -> (r: char)
    ensures
        r == finnish_char(ch),
{
    match ch {
        '[' => 'Ä',
        '\\' => 'Ö',
        ']' => 'Å',
        '^' => 'Ü',
        '`' => 'é',
        '{' => 'ä',
        '|' => 'ö',
        '}' => 'å',
        '~' => 'ü',
        _ => ch,
    }
}

/// The Swedish character set, as a map from the printable ASCII positions.
pub open spec fn swedish_char(ch: char) -> char {
    match ch {
        '@' => 'É',
        '[' => 'Ä',
        '\\' => 'Ö',
        ']' => 'Å',
        '^' => 'Ü',
        '`' => 'é',
        '{' => 'ä',
        '|' => 'ö',
        '}' => 'å',
        '~' => 'ü',
        _ => ch,
    }
}

pub fn map_swedish(ch: char) -> (r: char)
    ensures
        r == swedish_char(ch),
{
    match ch {
        '@' => 'É',
        '[' => 'Ä',
        '\\' => 'Ö',
        ']' => 'Å',
        '^' => 'Ü',
        '`' => 'é',
        '{' => 'ä',
        '|' => 'ö',
        '}' => 'å',
        '~' => 'ü',
        _ => ch,
    }
}

/// The Swiss character set, as a map from the printable ASCII positions.
pub open spec fn swiss_char(ch: char) -> char {
    match ch {
        '#' => 'ù',
        '@' => 'à',
        '[' => 'é',
        '\\' => 'ç',
        ']' => 'ê',
        '^' => 'î',
        '_' => 'è',
        '`' => 'ô',
        '{' => 'ä',
        '|' => 'ö',
        '}' => 'ü',
        '~' => 'û',
        _ => ch,
    }
}

pub fn map_swiss(ch: char) -> (r: char)
    ensures
        r == swiss_char(ch),
{
    match ch {
        '#' => 'ù',
        '@' => 'à',
        '[' => 'é',
        '\\' => 'ç',
        ']' => 'ê',
        '^' => 'î',
        '_' => 'è',
        '`' => 'ô',
        '{' => 'ä',
        '|' => 'ö',
        '}' => 'ü',
        '~' => 'û',
        _ => ch,
    }
}

/// The French character set, as a map from the printable ASCII positions.
pub open spec fn french_char(ch: char) -> char {
    match ch {
        '#' => '£',
        '@' => 'à',
        '[' => '°',
        '\\' => 'ç',
        ']' => '§',
        '{' => 'é',
        '|' => 'ù',
        '}' => 'è',
        '~' => '¨',
        _ => ch,
    }
}

pub fn map_french(ch: char) -> (r: char)
    ensures
        r == french_char(ch),
{
    match ch {
        '#' => '£',
        '@' => 'à',
        '[' => '°',
        '\\' => 'ç',
        ']' => '§',
        '{' => 'é',
        '|' => 'ù',
        '}' => 'è',
        '~' => '¨',
        _ => ch,
    }
}

/// The FrenchCanadian character set, as a map from the printable ASCII positions.
pub open spec fn french_canadian_char(ch: char) -> char {
    match ch {
        '@' => 'à',
        '[' => 'â',
        '\\' => 'ç',
        ']' => 'ê',
        '^' => 'î',
        '`' => 'ô',
        '{' => 'é',
        '|' => 'ù',
        '}' => 'è',
        '~' => 'û',
        _ => ch,
    }
}

pub fn map_french_canadian(ch: char) -> (r: char)
    ensures
        r == french_canadian_char(ch),
{
    match ch {
        '@' => 'à',
        '[' => 'â',
        '\\' => 'ç',
        ']' => 'ê',
        '^' => 'î',
        '`' => 'ô',
        '{' => 'é',
        '|' => 'ù',
        '}' => 'è',
        '~' => 'û',
        _ => ch,
    }
}

/// The Italian character set, as a map from the printable ASCII positions.
pub open spec fn italian_char(ch: char) -> char {
    match ch {
        '#' => '£',
        '@' => '§',
        '[' => '°',
        '\\' => 'ç',
        ']' => 'é',
        '`' => 'ù',
        '{' => 'à',
        '|' => 'ò',
        '}' => 'è',
        '~' => 'ì',
        _ => ch,
    }
}

pub fn map_italian(ch: char) -> (r: char)
    ensures
        r == italian_char(ch),
{
    match ch {
        '#' => '£',
        '@' => '§',
        '[' => '°',
        '\\' => 'ç',
        ']' => 'é',
        '`' => 'ù',
        '{' => 'à',
        '|' => 'ò',
        '}' => 'è',
        '~' => 'ì',
        _ => ch,
    }
}

/// The JisRoman character set, as a map from the printable ASCII positions.
pub open spec fn jis_roman_char(ch: char) -> char {
    match ch {
        '\\' => '¥',
        '~' => '‾',
        _ => ch,
    }
}

pub fn map_jis_roman(ch: char) -> (r: char)
    ensures
        r == jis_roman_char(ch),
{
    match ch {
        '\\' => '¥',
        '~' => '‾',
        _ => ch,
    }
}

/// The JisKatakana character set, as a map from the printable ASCII positions.
pub open spec fn jis_katakana_char(ch: char) -> char {
    match ch {
        '!'..='_' => char_with_code(0xff61 + (ch as u32 - 0x21)),
        '`'..='}' => '␦',
        _ => ch,
    }
}

pub fn map_jis_katakana(ch: char) -> (r: char)
    ensures
        r == jis_katakana_char(ch),
{
    match ch {
        '!'..='_' => katakana_for(ch),
        '`'..='}' => '␦',
        _ => ch,
    }
}

/// The Greek character set, as a map from the printable ASCII positions.
pub open spec fn greek_char(ch: char) -> char {
    match ch {
        'a' => 'Α',
        'b' => 'Β',
        'c' => 'Γ',
        'd' => 'Δ',
        'e' => 'Ε',
        'f' => 'Ζ',
        'g' => 'Η',
        'h' => 'Θ',
        'i' => 'Ι',
        'j' => 'Κ',
        'k' => 'Λ',
        'l' => 'Μ',
        'm' => 'Ν',
        'n' => 'Χ',
        'o' => 'Ο',
        'p' => 'Π',
        'q' => 'Ρ',
        'r' => 'Σ',
        's' => 'Τ',
        't' => 'Υ',
        'u' => 'Φ',
        'v' => 'Ξ',
        'w' => 'Ψ',
        'x' => 'Ω',
        'y' | 'z' => '␦',
        _ => ch,
    }
}

pub fn map_greek(ch: char) -> (r: char)
    ensures
        r == greek_char(ch),
{
    match ch {
        'a' => 'Α',
        'b' => 'Β',
        'c' => 'Γ',
        'd' => 'Δ',
        'e' => 'Ε',
        'f' => 'Ζ',
        'g' => 'Η',
        'h' => 'Θ',
        'i' => 'Ι',
        'j' => 'Κ',
        'k' => 'Λ',
        'l' => 'Μ',
        'm' => 'Ν',
        'n' => 'Χ',
        'o' => 'Ο',
        'p' => 'Π',
        'q' => 'Ρ',
        'r' => 'Σ',
        's' => 'Τ',
        't' => 'Υ',
        'u' => 'Φ',
        'v' => 'Ξ',
        'w' => 'Ψ',
        'x' => 'Ω',
        'y' | 'z' => '␦',
        _ => ch,
    }
}

/// The Hebrew character set, as a map from the printable ASCII positions.
pub open spec fn hebrew_char(ch: char) -> char {
    match ch {
        '`' => 'א',
        'a' => 'ב',
        'b' => 'ג',
        'c' => 'ד',
        'd' => 'ה',
        'e' => 'ו',
        'f' => 'ז',
        'g' => 'ח',
        'h' => 'ט',
        'i' => 'י',
        'j' => 'ך',
        'k' => 'כ',
        'l' => 'ל',
        'm' => 'ם',
        'n' => 'מ',
        'o' => 'ן',
        'p' => 'נ',
        'q' => 'ס',
        'r' => 'ע',
        's' => 'ף',
        't' => 'פ',
        'u' => 'ץ',
        'v' => 'צ',
        'w' => 'ק',
        'x' => 'ר',
        'y' => 'ש',
        'z' => 'ת',
        _ => ch,
    }
}

pub fn map_hebrew(ch: char) -> (r: char)
    ensures
        r == hebrew_char(ch),
{
    match ch {
        '`' => 'א',
        'a' => 'ב',
        'b' => 'ג',
        'c' => 'ד',
        'd' => 'ה',
        'e' => 'ו',
        'f' => 'ז',
        'g' => 'ח',
        'h' => 'ט',
        'i' => 'י',
        'j' => 'ך',
        'k' => 'כ',
        'l' => 'ל',
        'm' => 'ם',
        'n' => 'מ',
        'o' => 'ן',
        'p' => 'נ',
        'q' => 'ס',
        'r' => 'ע',
        's' => 'ף',
        't' => 'פ',
        'u' => 'ץ',
        'v' => 'צ',
        'w' => 'ק',
        'x' => 'ר',
        'y' => 'ש',
        'z' => 'ת',
        _ => ch,
    }
}

/// The Turkish character set, as a map from the printable ASCII positions.
pub open spec fn turkish_char(ch: char) -> char {
    match ch {
        '&' => 'ğ',
        '@' => 'İ',
        '[' => 'Ş',
        '\\' => 'Ö',
        ']' => 'Ç',
        '^' => 'Ü',
        '`' => 'Ğ',
        '{' => 'ş',
        '|' => 'ö',
        '}' => 'ç',
        '~' => 'ü',
        _ => ch,
    }
}

pub fn map_turkish(ch: char) -> (r: char)
    ensures
        r == turkish_char(ch),
{
    match ch {
        '&' => 'ğ',
        '@' => 'İ',
        '[' => 'Ş',
        '\\' => 'Ö',
        ']' => 'Ç',
        '^' => 'Ü',
        '`' => 'Ğ',
        '{' => 'ş',
        '|' => 'ö',
        '}' => 'ç',
        '~' => 'ü',
        _ => ch,
    }
}

/// The Russian character set, as a map from the printable ASCII positions.
pub open spec fn russian_char(ch: char) -> char {
    match ch {
        '`' => 'Ю',
        'a' => 'А',
        'b' => 'Б',
        'c' => 'Ц',
        'd' => 'Д',
        'e' => 'Е',
        'f' => 'Ф',
        'g' => 'Г',
        'h' => 'Х',
        'i' => 'И',
        'j' => 'Й',
        'k' => 'К',
        'l' => 'Л',
        'm' => 'М',
        'n' => 'Н',
        'o' => 'О',
        'p' => 'П',
        'q' => 'Я',
        'r' => 'Р',
        's' => 'С',
        't' => 'Т',
        'u' => 'У',
        'v' => 'Ж',
        'w' => 'В',
        'x' => 'Ь',
        'y' => 'Ы',
        'z' => 'З',
        '{' => 'Ш',
        '|' => 'Э',
        '}' => 'Щ',
        '~' => 'Ч',
        _ => ch,
    }
}

pub fn map_russian(ch: char) -> (r: char)
    ensures
        r == russian_char(ch),
{
    match ch {
        '`' => 'Ю',
        'a' => 'А',
        'b' => 'Б',
        'c' => 'Ц',
        'd' => 'Д',
        'e' => 'Е',
        'f' => 'Ф',
        'g' => 'Г',
        'h' => 'Х',
        'i' => 'И',
        'j' => 'Й',
        'k' => 'К',
        'l' => 'Л',
        'm' => 'М',
        'n' => 'Н',
        'o' => 'О',
        'p' => 'П',
        'q' => 'Я',
        'r' => 'Р',
        's' => 'С',
        't' => 'Т',
        'u' => 'У',
        'v' => 'Ж',
        'w' => 'В',
        'x' => 'Ь',
        'y' => 'Ы',
        'z' => 'З',
        '{' => 'Ш',
        '|' => 'Э',
        '}' => 'Щ',
        '~' => 'Ч',
        _ => ch,
    }
}

/// The SerboCroatian character set, as a map from the printable ASCII positions.
pub open spec fn serbo_croatian_char(ch: char) -> char {
    match ch {
        '@' => 'Ž',
        '[' => 'Š',
        '\\' => 'Đ',
        ']' => 'Ć',
        '^' => 'Č',
        '`' => 'ž',
        '{' => 'š',
        '|' => 'đ',
        '}' => 'ć',
        '~' => 'č',
        _ => ch,
    }
}

pub fn map_serbo_croatian(ch: char) -> (r: char)
    ensures
        r == serbo_croatian_char(ch),
{
    match ch {
        '@' => 'Ž',
        '[' => 'Š',
        '\\' => 'Đ',
        ']' => 'Ć',
        '^' => 'Č',
        '`' => 'ž',
        '{' => 'š',
        '|' => 'đ',
        '}' => 'ć',
        '~' => 'č',
        _ => ch,
    }
}

/// The NorwegianDanish character set, as a map from the printable ASCII positions.
pub open spec fn norwegian_danish_char(ch: char) -> char {
    match ch {
        '@' => 'Ä',
        '[' => 'Æ',
        '\\' => 'Ø',
        ']' => 'Å',
        '^' => 'Ü',
        '`' => 'ä',
        '{' => 'æ',
        '|' => 'ø',
        '}' => 'å',
        '~' => 'ü',
        _ => ch,
    }
}

pub fn map_norwegian_danish(ch: char) -> (r: char)
    ensures
        r == norwegian_danish_char(ch),
{
    match ch {
        '@' => 'Ä',
        '[' => 'Æ',
        '\\' => 'Ø',
        ']' => 'Å',
        '^' => 'Ü',
        '`' => 'ä',
        '{' => 'æ',
        '|' => 'ø',
        '}' => 'å',
        '~' => 'ü',
        _ => ch,
    }
}

/// The Portuguese character set, as a map from the printable ASCII positions.
pub open spec fn portuguese_char(ch: char) -> char {
    match ch {
        '[' => 'Ã',
        '\\' => 'Ç',
        ']' => 'Õ',
        '{' => 'ã',
        '|' => 'ç',
        '}' => 'õ',
        _ => ch,
    }
}

pub fn map_portuguese(ch: char) -> (r: char)
    ensures
        r == portuguese_char(ch),
{
    match ch {
        '[' => 'Ã',
        '\\' => 'Ç',
        ']' => 'Õ',
        '{' => 'ã',
        '|' => 'ç',
        '}' => 'õ',
        _ => ch,
    }
}

/// The Spanish character set, as a map from the printable ASCII positions.
pub open spec fn spanish_char(ch: char) -> char {
    match ch {
        '#' => '£',
        '@' => '§',
        '[' => '¡',
        '\\' => 'Ñ',
        ']' => '¿',
        '{' => '°',
        '|' => 'ñ',
        '}' => 'ç',
        _ => ch,
    }
}

pub fn map_spanish(ch: char) -> (r: char)
    ensures
        r == spanish_char(ch),
{
    match ch {
        '#' => '£',
        '@' => '§',
        '[' => '¡',
        '\\' => 'Ñ',
        ']' => '¿',
        '{' => '°',
        '|' => 'ñ',
        '}' => 'ç',
        _ => ch,
    }
}

/// The DecSpecialGraphics character set, as a map from the printable ASCII positions.
pub open spec fn dec_special_graphics_char(ch: char) -> char {
    match ch {
        '`' => '◆',
        'a' => '▒',
        'f' => '°',
        'g' => '±',
        'h' => '␤',
        'i' => '␋',
        'j' => '┘',
        'k' => '┐',
        'l' => '┌',
        'm' => '└',
        'n' => '┼',
        'o' => '⎺',
        'p' => '⎻',
        'q' => '─',
        'r' => '⎼',
        's' => '⎽',
        't' => '├',
        'u' => '┤',
        'v' => '┴',
        'w' => '┬',
        'x' => '│',
        'y' => '≤',
        'z' => '≥',
        '{' => 'π',
        '|' => '≠',
        '}' => '£',
        '~' => '·',
        _ => ch,
    }
}

pub fn map_dec_special_graphics(ch: char) -> (r: char)
    ensures
        r == dec_special_graphics_char(ch),
{
    match ch {
        '`' => '◆',
        'a' => '▒',
        'f' => '°',
        'g' => '±',
        'h' => '␤',
        'i' => '␋',
        'j' => '┘',
        'k' => '┐',
        'l' => '┌',
        'm' => '└',
        'n' => '┼',
        'o' => '⎺',
        'p' => '⎻',
        'q' => '─',
        'r' => '⎼',
        's' => '⎽',
        't' => '├',
        'u' => '┤',
        'v' => '┴',
        'w' => '┬',
        'x' => '│',
        'y' => '≤',
        'z' => '≥',
        '{' => 'π',
        '|' => '≠',
        '}' => '£',
        '~' => '·',
        _ => ch,
    }
}

/// The character that `ch` stands for in `charset`.
pub open spec fn charset_char(ch: char, charset: Charset) -> char {
    match charset {
        Charset::Ascii => ch,
        Charset::British => british_char(ch),
        Charset::DecCyrillic => dec_cyrillic_char(ch),
        Charset::DecGreekSupplemental => dec_greek_supplemental_char(ch),
        Charset::DecHebrewSupplemental => dec_hebrew_supplemental_char(ch),
        Charset::DecSupplementalGraphics => dec_supplemental_graphics_char(ch),
        Charset::DecSpecialGraphics => dec_special_graphics_char(ch),
        Charset::DecTechnical => dec_technical_char(ch),
        Charset::DecTurkishSupplemental => dec_turkish_supplemental_char(ch),
        Charset::Dutch => dutch_char(ch),
        Charset::Finnish => finnish_char(ch),
        Charset::French => french_char(ch),
        Charset::FrenchCanadian => french_canadian_char(ch),
        Charset::German => german_char(ch),
        Charset::Greek => greek_char(ch),
        Charset::Hebrew => hebrew_char(ch),
        Charset::Italian => italian_char(ch),
        Charset::JisKatakana => jis_katakana_char(ch),
        Charset::JisRoman => jis_roman_char(ch),
        Charset::NorwegianDanish => norwegian_danish_char(ch),
        Charset::Portuguese => portuguese_char(ch),
        Charset::Russian => russian_char(ch),
        Charset::SerboCroatian => serbo_croatian_char(ch),
        Charset::Spanish => spanish_char(ch),
        Charset::Swedish => swedish_char(ch),
        Charset::Swiss => swiss_char(ch),
        Charset::Turkish => turkish_char(ch),
    }
}

/// Maps a printable character through the designated character set.
pub fn map_printable_char(ch: char, charset: Charset) -> (r: char)
    ensures
        r == charset_char(ch, charset),
{
    match charset {
        Charset::Ascii => ch,
        Charset::British => map_british(ch),
        Charset::DecCyrillic => map_dec_cyrillic(ch),
        Charset::DecGreekSupplemental => map_dec_greek_supplemental(ch),
        Charset::DecHebrewSupplemental => map_dec_hebrew_supplemental(ch),
        Charset::DecSupplementalGraphics => map_dec_supplemental_graphics(ch),
        Charset::DecSpecialGraphics => map_dec_special_graphics(ch),
        Charset::DecTechnical => map_dec_technical(ch),
        Charset::DecTurkishSupplemental => map_dec_turkish_supplemental(ch),
        Charset::Dutch => map_dutch(ch),
        Charset::Finnish => map_finnish(ch),
        Charset::French => map_french(ch),
        Charset::FrenchCanadian => map_french_canadian(ch),
        Charset::German => map_german(ch),
        Charset::Greek => map_greek(ch),
        Charset::Hebrew => map_hebrew(ch),
        Charset::Italian => map_italian(ch),
        Charset::JisKatakana => map_jis_katakana(ch),
        Charset::JisRoman => map_jis_roman(ch),
        Charset::NorwegianDanish => map_norwegian_danish(ch),
        Charset::Portuguese => map_portuguese(ch),
        Charset::Russian => map_russian(ch),
        Charset::SerboCroatian => map_serbo_croatian(ch),
        Charset::Spanish => map_spanish(ch),
        Charset::Swedish => map_swedish(ch),
        Charset::Swiss => map_swiss(ch),
        Charset::Turkish => map_turkish(ch),
    }
}

} // verus!
