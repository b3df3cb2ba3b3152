//! Upper-case hexadecimal text for byte strings.

use vstd::prelude::*;

verus! {

/// The upper-case hexadecimal digit that stands for `nibble`, a value below sixteen.
pub open spec fn hex_digit(nibble: int) -> char {
    if nibble < 10 {
        (48 + nibble) as u8 as char
    } else {
        (55 + nibble) as u8 as char
    }
}

/// The hexadecimal text of `bytes`: two upper-case digits for each byte, the
/// high half first, in the order of the bytes.
pub open spec fn hex_string(bytes: Seq<u8>) -> Seq<char> {
    Seq::new(
        2 * bytes.len(),
        |i: int|
            if i % 2 == 0 {
                hex_digit(bytes[i / 2] as int / 16)
            } else {
                hex_digit(bytes[i / 2] as int % 16)
            },
    )
}

/// `String::push` appends one character to the end of the string and leaves
/// the characters before it as they were.
pub assume_specification[ String::push ](s: &mut String, c: char)
    ensures
        final(s)@ == old(s)@.push(c),
;

/// The digit for a value below sixteen.
pub fn hex_char(nibble: u8) -> (c: char)
    requires
        nibble < 16,
    ensures
        c == hex_digit(nibble as int),
{
    if nibble < 10 {
        (48u8 + nibble) as char
    } else {
        (55u8 + nibble) as char
    }
}

/// Writes `bytes` as upper-case hexadecimal text, two digits per byte.
pub fn write_hex(bytes: &[u8]) -> (s: String)
    ensures
        s@ == hex_string(bytes@),
{
    let mut s = String::new();
    let mut i: usize = 0;
    while i < bytes.len()
        invariant
            i <= bytes.len(),
            s@.len() == 2 * i,
            forall|k: int| 0 <= k < 2 * i ==> s@[k] == hex_string(bytes@)[k],
        decreases bytes.len() - i,
    {
        let byte: u8 = bytes[i];
        s.push(hex_char(byte / 16));
        s.push(hex_char(byte % 16));
        i += 1;
    }
    assert(s@ =~= hex_string(bytes@));
    s
}

} // verus!
