//! Escaping of arbitrary bytes into printable ASCII text.
use vstd::prelude::*;

verus! {

/// The lowercase hexadecimal digit for `d`, for `d < 16`.
pub open spec fn hex_digit(d: u8) -> char {
    if d < 10 {
        (('0' as u8) + d) as char
    } else {
        (('a' as u8) + (d - 10)) as char
    }
}

/// The escaped text of one byte: tab, carriage return, line feed, backslash
/// and both quotes get a backslash form; other printable ASCII stands for
/// itself; every other byte is written `\xNN` with two lowercase hex digits.
pub open spec fn escape_byte(b: u8) -> Seq<char> {
    if b == 0x09 {
        seq!['\\', 't']
    } else if b == 0x0d {
        seq!['\\', 'r']
    } else if b == 0x0a {
        seq!['\\', 'n']
    } else if b == 0x5c {
        seq!['\\', '\\']
    } else if b == 0x27 {
        seq!['\\', '\'']
    } else if b == 0x22 {
        seq!['\\', '"']
    } else if 0x20 <= b && b <= 0x7e {
        seq![b as char]
    } else {
        seq!['\\', 'x', hex_digit(b / 16), hex_digit(b % 16)]
    }
}

/// The escaped text of a byte sequence: each byte's escape, in order.
pub open spec fn escaped(s: Seq<u8>) -> Seq<char>
    decreases s.len(),
{
    if s.len() == 0 {
        Seq::empty()
    } else {
        escaped(s.drop_last()) + escape_byte(s.last())
    }
}

/// Relies on `<[u8]>::escape_ascii`, whose `Display` output is the escape of
/// each byte in turn, as `u8::escape_ascii` documents it.
#[verifier::external_body]
pub(crate) fn escape_bytes(b: &[u8]) -> (r: String)
    ensures
        r@ == escaped(b@),
{
    b.escape_ascii().to_string()
}

} // verus!
