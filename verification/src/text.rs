//! Small helpers on text: comparing, appending, and writing bytes as
//! hexadecimal digits.
use vstd::prelude::*;
use vstd::string::StringExecFns;

verus! {

/// `String::push` of std appends the character to the end of the string.
pub assume_specification[ String::push ](s: &mut String, ch: char)
    ensures
        final(s)@ == old(s)@.push(ch),
;

/// Whether two texts are the same.
pub fn same_text(a: &str, b: &str) -> (same: bool)
    ensures
        same == (a@ == b@),
{
    let a = String::from_str(a);
    let b = String::from_str(b);
    a == b
}

/// The sixteen hexadecimal digits, in lower case.
pub const HEX_DIGITS: [char; 16] = [
    '0',
    '1',
    '2',
    '3',
    '4',
    '5',
    '6',
    '7',
    '8',
    '9',
    'a',
    'b',
    'c',
    'd',
    'e',
    'f',
];

/// The character at the given place of the hexadecimal form of some bytes:
/// every byte gives two digits, the one of its upper four bits first.
pub open spec fn hex_symbol(bytes: Seq<u8>, place: int) -> char
    recommends
        0 <= place < 2 * bytes.len(),
{
    let byte = bytes[place / 2];
    if place % 2 == 0 {
        HEX_DIGITS@[(byte >> 4) as int]
    } else {
        HEX_DIGITS@[(byte & 0x0f) as int]
    }
}

/// The hexadecimal form of some bytes, in lower case.
pub open spec fn spec_hex(bytes: Seq<u8>) -> Seq<char> {
    Seq::new(2 * bytes.len(), |place: int| hex_symbol(bytes, place))
}

/// `hex::encode` writes each byte as two hexadecimal digits in lower case, the
/// digit of the upper four bits first, so that the text is twice as long as
/// the input.
#[verifier::external_body]
pub(crate) fn hex_encode(bytes: &[u8]) -> (text: String)
    ensures
        text@ == spec_hex(bytes@),
{
    hex::encode(bytes)
}

} // verus!
