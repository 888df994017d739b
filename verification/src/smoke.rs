use vstd::prelude::*;

use crate::input::chars_equal;
use crate::mouse::{
    legacy_mouse_report, legacy_mouse_report_spec, sgr_mouse_report, sgr_mouse_report_spec, LEFT_BUTTON, WHEEL_DOWN,
};
use crate::state::{lines_view, TerminalModes};
use crate::terminal_view::{all_digits, digits_value, lemma_digits_value_grows};
use crate::text::{chars_to_string, str_chars};

verus! {

/// A press of `code` at row 1, column 2, in the format the program asked for.
pub open spec fn smoke_report(modes: TerminalModes, code: u16) -> Seq<u8> {
    if modes.sgr_mouse {
        sgr_mouse_report_spec(code, 1, 2, false)
    } else {
        legacy_mouse_report_spec(code, 1, 2, false)
    }
}

/// The mouse reports a smoke run sends for a named gesture at the cell of
/// row 1, column 2: a left press, one wheel step down, or five of them;
/// nothing when the program did not ask for mouse reports or the name is unknown.
pub open spec fn smoke_mouse_reports_spec(modes: TerminalModes, report: Seq<char>) -> Option<Seq<Seq<u8>>> {
    if !modes.mouse_reporting {
        None
    } else if report == "left-press"@ {
        Some(seq![smoke_report(modes, LEFT_BUTTON)])
    } else if report == "wheel-down"@ {
        Some(seq![smoke_report(modes, WHEEL_DOWN)])
    } else if report == "wheel-down-5"@ {
        Some(Seq::new(5, |i: int| smoke_report(modes, WHEEL_DOWN)))
    } else {
        None
    }
}

fn smoke_press(modes: TerminalModes, code: u16) -> (b: Vec<u8>)
    ensures
        b@ == smoke_report(modes, code),
{
    if modes.sgr_mouse {
        sgr_mouse_report(code, 1, 2, false)
    } else {
        legacy_mouse_report(code, 1, 2, false)
    }
}

/// The view of a list of byte strings.
pub open spec fn byte_strings_view(v: Seq<Vec<u8>>) -> Seq<Seq<u8>> {
    Seq::new(v.len(), |i: int| v[i]@)
}

/// The mouse reports for a named smoke gesture.
pub fn smoke_mouse_reports(modes: TerminalModes, report: &str) -> (r: Option<Vec<Vec<u8>>>)
    ensures
        match r {
            Some(v) => smoke_mouse_reports_spec(modes, report@) == Some(byte_strings_view(v@)),
            None => smoke_mouse_reports_spec(modes, report@) is None,
        },
{
    if !modes.mouse_reporting {
        return None;
    }
    let name = str_chars(report);
    let count: usize = if chars_equal(name.as_slice(), str_chars("left-press").as_slice()) {
        let mut v: Vec<Vec<u8>> = Vec::new();
        v.push(smoke_press(modes, LEFT_BUTTON));
        assert(byte_strings_view(v@) =~= seq![smoke_report(modes, LEFT_BUTTON)]);
        return Some(v);
    } else if chars_equal(name.as_slice(), str_chars("wheel-down").as_slice()) {
        1
    } else if chars_equal(name.as_slice(), str_chars("wheel-down-5").as_slice()) {
        5
    } else {
        return None;
    };
    let mut v: Vec<Vec<u8>> = Vec::new();
    let mut k: usize = 0;
    while k < count
        invariant
            k <= count,
            forall|j: int| 0 <= j < v@.len() ==> #[trigger] v@[j]@ == smoke_report(modes, WHEEL_DOWN),
            v@.len() == k,
        decreases count - k,
    {
        v.push(smoke_press(modes, WHEEL_DOWN));
        k += 1;
    }
    assert(byte_strings_view(v@) =~= Seq::new(count as nat, |i: int| smoke_report(modes, WHEEL_DOWN)));
    Some(v)
}

/// Lines joined by newlines.
pub open spec fn joined_lines(lines: Seq<Seq<char>>) -> Seq<char>
    decreases lines.len(),
{
    if lines.len() == 0 {
        Seq::empty()
    } else if lines.len() == 1 {
        lines[0]
    } else {
        joined_lines(lines.drop_last()).push('\n') + lines.last()
    }
}

/// The text of a snapshot's lines, one per line, as a smoke run saves it.
pub fn join_lines(lines: &[String]) -> (text: String)
    ensures
        text@ == joined_lines(lines_view(lines@)),
{
    let ghost lv = lines_view(lines@);
    let mut out: Vec<char> = Vec::new();
    let mut i: usize = 0;
    while i < lines.len()
        invariant
            i <= lines@.len(),
            lv == lines_view(lines@),
            out@ == joined_lines(lv.take(i as int)),
        decreases lines@.len() - i,
    {
        let ghost before = out@;
        assert(lv.take(i + 1).drop_last() == lv.take(i as int));
        if i > 0 {
            out.push('\n');
        } else {
            assert(lv.take(1)[0] == lv[0]);
        }
        let mut chars = str_chars(lines[i].as_str());
        out.append(&mut chars);
        assert(lv.take(i + 1).last() == lv[i as int]);
        i += 1;
    }
    assert(lv.take(i as int) == lv);
    chars_to_string(out.as_slice())
}

/// A `u64` as `u64::from_str` reads it: an optional `+`, then one or more
/// digits whose value fits.
pub open spec fn parse_u64_spec(s: Seq<char>) -> Option<u64> {
    let digits = if s.len() > 0 && s[0] == '+' { s.drop_first() } else { s };
    if digits.len() > 0 && all_digits(digits) && digits_value(digits) <= u64::MAX {
        Some(digits_value(digits) as u64)
    } else {
        None
    }
}

fn parse_u64(chars: &[char]) -> (r: Option<u64>)
    ensures
        r == parse_u64_spec(chars@),
{
    let ghost s = chars@;
    let mut i: usize = 0;
    if i < chars.len() && chars[i] == '+' {
        i = 1;
    }
    let ghost digits = chars@.skip(i as int);
    proof {
        if s.len() > 0 && s[0] == '+' {
            assert(digits == s.drop_first());
        } else {
            assert(digits == s);
        }
    }
    if i == chars.len() {
        return None;
    }
    let mut value: u64 = 0;
    let start = i;
    while i < chars.len()
        invariant
            start <= i <= chars@.len(),
            s == chars@,
            digits == chars@.skip(start as int),
            digits == (if s.len() > 0 && s[0] == '+' { s.drop_first() } else { s }),
            digits.len() > 0,
            all_digits(digits.take(i - start)),
            value == digits_value(digits.take(i - start)),
        decreases chars@.len() - i,
    {
        let c = chars[i];
        if !('0' <= c && c <= '9') {
            assert(digits[i - start] == c);
            return None;
        }
        let d = (c as u32 - '0' as u32) as u64;
        assert(digits.take(i - start + 1).drop_last() == digits.take(i - start));
        assert(digits.take(i - start + 1).last() == c);
        let next = match value.checked_mul(10) {
            Some(v) => v.checked_add(d),
            None => None,
        };
        match next {
            Some(v) => {
                value = v;
            },
            None => {
                proof {
                    if all_digits(digits) {
                        lemma_digits_value_grows(digits, i - start + 1);
                    }
                }
                return None;
            },
        }
        i = i + 1;
    }
    assert(digits.take(i - start) == digits);
    Some(value)
}

/// A delay in milliseconds from a setting: the number it holds, or the
/// default when it is absent or not a `u64`.
pub fn delay_or_default(value: Option<&str>, default: u64) -> (ms: u64)
    ensures
        ms == match value {
            Some(v) => match parse_u64_spec(v@) {
                Some(n) => n,
                None => default,
            },
            None => default,
        },
{
    match value {
        None => default,
        Some(v) => {
            let chars = str_chars(v);
            match parse_u64(chars.as_slice()) {
                Some(n) => n,
                None => default,
            }
        },
    }
}

} // verus!
