//! Wide strings for the platform's text parameters.

use vstd::prelude::*;

verus! {

/// The UTF-16 code units of one character: itself below 0x10000, a
/// surrogate pair above.
pub open spec fn units_of(c: char) -> Seq<u16> {
    if (c as u32) < 0x10000 {
        seq![c as u16]
    } else {
        seq![
            (0xD800 + ((c as u32) - 0x10000) / 0x400) as u16,
            (0xDC00 + ((c as u32) - 0x10000) % 0x400) as u16,
        ]
    }
}

/// The UTF-16 code units of a text, character by character.
pub open spec fn utf16(text: Seq<char>) -> Seq<u16>
    decreases text.len(),
{
    if text.len() == 0 {
        Seq::empty()
    } else {
        utf16(text.drop_last()) + units_of(text.last())
    }
}

/// The text as the platform wants it: its UTF-16 code units, and a zero
/// after them.
pub open spec fn spec_encode_wide(text: Seq<char>) -> Seq<u16> {
    utf16(text).push(0u16)
}

/// Encodes a text as UTF-16 and ends it with a zero.
pub fn encode_wide(string: &str) -> (wide: Vec<u16>)
    ensures
        wide@ == spec_encode_wide(string@),
{
    let n = string.unicode_len();
    let mut wide: Vec<u16> = Vec::new();
    let mut i: usize = 0;
    while i < n
        invariant
            i <= n,
            n == string@.len(),
            wide@ == utf16(string@.take(i as int)),
        decreases n - i,
    {
        let c = string.get_char(i);
        let code: u32 = c as u32;
        proof {
            assert(string@.take(i + 1).drop_last() =~= string@.take(i as int));
            assert(string@.take(i + 1).last() == c);
        }
        if code < 0x10000 {
            wide.push(code as u16);
        } else {
            let rest: u32 = code - 0x10000;
            wide.push((0xD800 + rest / 0x400) as u16);
            wide.push((0xDC00 + rest % 0x400) as u16);
        }
        assert(wide@ =~= utf16(string@.take(i as int)) + units_of(c));
        i += 1;
    }
    assert(string@.take(n as int) =~= string@);
    wide.push(0);
    wide
}

} // verus!
