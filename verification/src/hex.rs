//! A hexadecimal dump of bytes, for inspecting how a converted text is encoded.
//!
//! The dump is one line: every byte as two upper-case digits followed by a
//! space, and a line feed at the end.

use vstd::prelude::*;

verus! {

/// The upper-case hexadecimal digit for a value below sixteen.
pub open spec fn hex_digit(value: int) -> char
    recommends
        0 <= value < 16,
{
    seq!['0', '1', '2', '3', '4', '5', '6', '7', '8', '9', 'A', 'B', 'C', 'D', 'E', 'F'][value]
}

/// One byte of a dump: its two digits, the high one first, and a space.
pub open spec fn hex_byte(byte: u8) -> Seq<char> {
    seq![hex_digit(byte as int / 16), hex_digit(byte as int % 16), ' ']
}

/// The bytes in order, each as its two digits followed by a space.
pub open spec fn hex_bytes(bytes: Seq<u8>) -> Seq<char>
    decreases bytes.len(),
{
    if bytes.len() == 0 {
        Seq::empty()
    } else {
        hex_bytes(bytes.drop_last()) + hex_byte(bytes.last())
    }
}

/// The dump of a byte sequence: its bytes in hexadecimal and a line feed.
pub open spec fn hex_line(bytes: Seq<u8>) -> Seq<char> {
    hex_bytes(bytes).push('\n')
}

/// The upper-case hexadecimal digit for `value`.
fn digit(value: u8) -> (d: char)
    requires
        value < 16,
    ensures
        d == hex_digit(value as int),
{
    match value {
        0 => '0',
        1 => '1',
        2 => '2',
        3 => '3',
        4 => '4',
        5 => '5',
        6 => '6',
        7 => '7',
        8 => '8',
        9 => '9',
        10 => 'A',
        11 => 'B',
        12 => 'C',
        13 => 'D',
        14 => 'E',
        _ => 'F',
    }
}

/// Writes `bytes` as one line of upper-case hexadecimal: two digits and a
/// space per byte, then a line feed.
pub fn hex_dump(bytes: &[u8]) -> (line: String)
    ensures
        line@ == hex_line(bytes@),
        line@.len() == 3 * bytes@.len() + 1,
{
    let mut line = String::new();
    let mut at: usize = 0;
    while at < bytes.len()
        invariant
            at <= bytes@.len(),
            line@ == hex_bytes(bytes@.take(at as int)),
            line@.len() == 3 * at,
        decreases bytes@.len() - at,
    {
        let byte = bytes[at];
        proof {
            let next = bytes@.take(at + 1);
            assert(next.drop_last() =~= bytes@.take(at as int));
            assert(next.last() == byte);
        }
        line.push(digit(byte / 16));
        line.push(digit(byte % 16));
        line.push(' ');
        at += 1;
    }
    assert(bytes@.take(at as int) =~= bytes@);
    line.push('\n');
    line
}

} // verus!
