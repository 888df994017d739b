use vstd::prelude::*;

verus! {

/// Combining marks take no column of their own: they attach to the character before them.
pub open spec fn is_combining_mark_spec(c: char) -> bool {
    let u = c as u32;
    ||| 0x0300 <= u <= 0x036F
    ||| 0x1AB0 <= u <= 0x1AFF
    ||| 0x1DC0 <= u <= 0x1DFF
    ||| 0x20D0 <= u <= 0x20FF
    ||| 0xFE20 <= u <= 0xFE2F
}

/// East Asian wide and emoji ranges that take two columns.
pub open spec fn is_wide_char_spec(c: char) -> bool {
    let u = c as u32;
    ||| 0x1100 <= u <= 0x115F
    ||| 0x2329 <= u <= 0x232A
    ||| 0x2E80 <= u <= 0xA4CF
    ||| 0xAC00 <= u <= 0xD7A3
    ||| 0xF900 <= u <= 0xFAFF
    ||| 0xFE10 <= u <= 0xFE19
    ||| 0xFE30 <= u <= 0xFE6F
    ||| 0xFF00 <= u <= 0xFF60
    ||| 0xFFE0 <= u <= 0xFFE6
    ||| 0x1F300 <= u <= 0x1FAFF
}

/// The number of terminal columns a character occupies: 0, 1 or 2.
pub open spec fn char_width_spec(c: char) -> nat {
    if is_combining_mark_spec(c) {
        0
    } else if is_wide_char_spec(c) {
        2
    } else {
        1
    }
}

/// The number of columns a whole text occupies.
pub open spec fn text_width(s: Seq<char>) -> nat
    decreases s.len(),
{
    if s.len() == 0 {
        0
    } else {
        text_width(s.drop_last()) + char_width_spec(s.last())
    }
}

pub fn is_combining_mark(ch: char) -> (b: bool)
    ensures
        b == is_combining_mark_spec(ch),
{
    let u = ch as u32;
    (0x0300 <= u && u <= 0x036F) || (0x1AB0 <= u && u <= 0x1AFF) || (0x1DC0 <= u && u <= 0x1DFF)
        || (0x20D0 <= u && u <= 0x20FF) || (0xFE20 <= u && u <= 0xFE2F)
}

pub fn is_wide_char(ch: char) -> (b: bool)
    ensures
        b == is_wide_char_spec(ch),
{
    let u = ch as u32;
    (0x1100 <= u && u <= 0x115F) || (0x2329 <= u && u <= 0x232A) || (0x2E80 <= u && u <= 0xA4CF)
        || (0xAC00 <= u && u <= 0xD7A3) || (0xF900 <= u && u <= 0xFAFF) || (0xFE10 <= u && u
        <= 0xFE19) || (0xFE30 <= u && u <= 0xFE6F) || (0xFF00 <= u && u <= 0xFF60) || (0xFFE0
        <= u && u <= 0xFFE6) || (0x1F300 <= u && u <= 0x1FAFF)
}

pub fn char_width(ch: char) -> (w: usize)
    ensures
        w == char_width_spec(ch),
        w <= 2,
{
    if is_combining_mark(ch) {
        0
    } else if is_wide_char(ch) {
        2
    } else {
        1
    }
}

/// The characters of a string slice, in order.
pub fn str_chars(s: &str) -> (v: Vec<char>)
    ensures
        v@ == s@,
{
    let mut v: Vec<char> = Vec::new();
    for c in it: s.chars()
        invariant
            v@ == it.seq().take(it.index() as int),
            it.seq() == s@,
    {
        v.push(c);
    }
    v
}

/// Builds a `String` from characters.
///
/// Trusted: calls std's `FromIterator<char>` for `String`, which
/// appends the characters in order; the contract states exactly that.
#[verifier::external_body]
pub(crate) fn chars_to_string(chars: &[char]) -> (s: String)
    ensures
        s@ == chars@,
{
    chars.iter().collect()
}

/// The display width of a string, in terminal columns (saturating at the largest `usize`).
pub fn display_width(text: &str) -> (w: usize)
    ensures
        w == (if text_width(text@) <= usize::MAX { text_width(text@) } else { usize::MAX as nat }),
{
    let chars = str_chars(text);
    let mut total: usize = 0;
    let mut i: usize = 0;
    while i < chars.len()
        invariant
            i <= chars@.len(),
            chars@ == text@,
            total == (if text_width(chars@.take(i as int)) <= usize::MAX {
                text_width(chars@.take(i as int))
            } else {
                usize::MAX as nat
            }),
        decreases chars@.len() - i,
    {
        assert(chars@.take(i + 1).drop_last() == chars@.take(i as int));
        total = total.saturating_add(char_width(chars[i]));
        i += 1;
    }
    assert(chars@.take(i as int) == chars@);
    total
}

/// The decimal digits of a number, in ASCII.
pub open spec fn decimal(n: nat) -> Seq<u8>
    decreases n,
{
    if n < 10 {
        seq![(0x30 + n) as u8]
    } else {
        decimal(n / 10).push((0x30 + n % 10) as u8)
    }
}

/// Appends the decimal digits of `n`.
pub fn push_decimal(out: &mut Vec<u8>, n: usize)
    ensures
        final(out)@ == old(out)@ + decimal(n as nat),
    decreases n,
{
    if n >= 10 {
        push_decimal(out, n / 10);
    }
    let digit = (n % 10) as u8;
    out.push(0x30 + digit);
    proof {
        assert(old(out)@ + decimal(n as nat) =~= (if n >= 10 { old(out)@ + decimal((n / 10) as nat) } else { old(out)@ }).push((0x30 + n % 10) as u8));
    }
}

/// Appends bytes.
pub fn push_bytes(out: &mut Vec<u8>, bytes: &[u8])
    ensures
        final(out)@ == old(out)@ + bytes@,
{
    let mut i: usize = 0;
    while i < bytes.len()
        invariant
            i <= bytes@.len(),
            out@ == old(out)@ + bytes@.take(i as int),
        decreases bytes@.len() - i,
    {
        out.push(bytes[i]);
        i += 1;
        assert(out@ =~= old(out)@ + bytes@.take(i as int));
    }
    assert(bytes@.take(i as int) == bytes@);
}

} // verus!
