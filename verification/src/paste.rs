use vstd::prelude::*;

use vstd::string::StringSliceAdditionalSpecFns;

use crate::state::TerminalModes;
use crate::text::push_bytes;

verus! {

/// The marker that opens a bracketed paste: `ESC [ 200 ~`.
pub open spec fn paste_start() -> Seq<u8> {
    seq![0x1bu8, 0x5b, 0x32, 0x30, 0x30, 0x7e]
}

/// The marker that closes a bracketed paste: `ESC [ 201 ~`.
pub open spec fn paste_end() -> Seq<u8> {
    seq![0x1bu8, 0x5b, 0x32, 0x30, 0x31, 0x7e]
}

/// Pasted text framed by the bracketed-paste markers, the text itself in UTF-8.
pub fn bracketed_paste_bytes(input: &str) -> (bytes: Vec<u8>)
    ensures
        bytes@ == paste_start() + input.spec_bytes() + paste_end(),
{
    let start: [u8; 6] = [0x1b, 0x5b, 0x32, 0x30, 0x30, 0x7e];
    let end: [u8; 6] = [0x1b, 0x5b, 0x32, 0x30, 0x31, 0x7e];
    assert(start@ == paste_start());
    assert(end@ == paste_end());
    let mut bytes: Vec<u8> = Vec::new();
    push_bytes(&mut bytes, &start);
    push_bytes(&mut bytes, input.as_bytes());
    push_bytes(&mut bytes, &end);
    bytes
}

/// What pasting `input` sends to the program: nothing for empty text, the
/// framed text when the program asked for bracketed paste, else the text.
pub fn paste_bytes(modes: TerminalModes, input: &str) -> (r: Option<Vec<u8>>)
    ensures
        input@.len() == 0 ==> r is None,
        input@.len() > 0 && modes.bracketed_paste ==> (r matches Some(b) && b@ == paste_start() + input.spec_bytes()
            + paste_end()),
        input@.len() > 0 && !modes.bracketed_paste ==> (r matches Some(b) && b@ == input.spec_bytes()),
{
    if input.is_empty() {
        return None;
    }
    if modes.bracketed_paste {
        Some(bracketed_paste_bytes(input))
    } else {
        Some(vstd::slice::slice_to_vec(input.as_bytes()))
    }
}

} // verus!
