//! Numbers as text, for the diagnostic dumps of the three layers.

use vstd::prelude::*;
use vstd::string::StringExecFns;

verus! {

/// The character of the digit `value`, for values below sixteen; the digits
/// above nine are the lower-case letters `a` to `f`.
pub open spec fn digit(value: nat) -> char {
    "0123456789abcdef"@[value as int]
}

/// `value` in decimal, without leading zeros.
pub open spec fn decimal(value: nat) -> Seq<char>
    decreases value,
{
    if value < 10 {
        seq![digit(value)]
    } else {
        decimal(value / 10).push(digit(value % 10))
    }
}

/// `value` as two hexadecimal digits.
pub open spec fn hex_byte(value: u8) -> Seq<char> {
    seq![digit((value / 16) as nat), digit((value % 16) as nat)]
}

/// `value` as four hexadecimal digits.
pub open spec fn hex_u16(value: u16) -> Seq<char> {
    hex_byte((value / 256) as u8) + hex_byte((value % 256) as u8)
}

/// Every byte of `bytes` as a blank and two hexadecimal digits.
pub open spec fn hex_dump(bytes: Seq<u8>) -> Seq<char>
    decreases bytes.len(),
{
    if bytes.len() == 0 {
        Seq::empty()
    } else {
        hex_dump(bytes.drop_last()) + " "@ + hex_byte(bytes.last())
    }
}

/// The six bytes of a hardware address in hexadecimal, colons between them.
pub open spec fn colon_hex(address: [u8; 6]) -> Seq<char> {
    hex_byte(address[0])
        + ":"@
        + hex_byte(address[1])
        + ":"@
        + hex_byte(address[2])
        + ":"@
        + hex_byte(address[3])
        + ":"@
        + hex_byte(address[4])
        + ":"@
        + hex_byte(address[5])
}

/// The four bytes of an IPv4 address in decimal, dots between them.
pub open spec fn dotted_decimal(address: [u8; 4]) -> Seq<char> {
    decimal(address[0] as nat)
        + "."@
        + decimal(address[1] as nat)
        + "."@
        + decimal(address[2] as nat)
        + "."@
        + decimal(address[3] as nat)
}

/// The text of one digit.
pub fn digit_text(value: u8) -> (text: &'static str)
    requires
        value < 16,
    ensures
        text@ == seq![digit(value as nat)],
{
    proof {
        reveal_strlit("0123456789abcdef");
        reveal_strlit("0");
        reveal_strlit("1");
        reveal_strlit("2");
        reveal_strlit("3");
        reveal_strlit("4");
        reveal_strlit("5");
        reveal_strlit("6");
        reveal_strlit("7");
        reveal_strlit("8");
        reveal_strlit("9");
        reveal_strlit("a");
        reveal_strlit("b");
        reveal_strlit("c");
        reveal_strlit("d");
        reveal_strlit("e");
        reveal_strlit("f");
    }
    match value {
        0 => "0",
        1 => "1",
        2 => "2",
        3 => "3",
        4 => "4",
        5 => "5",
        6 => "6",
        7 => "7",
        8 => "8",
        9 => "9",
        10 => "a",
        11 => "b",
        12 => "c",
        13 => "d",
        14 => "e",
        _ => "f",
    }
}

/// Appends `value` in decimal.
pub fn push_decimal(out: &mut String, value: u64)
    ensures
        final(out)@ == old(out)@ + decimal(value as nat),
    decreases value,
{
    if value >= 10 {
        push_decimal(out, value / 10);
    }
    out.append(digit_text((value % 10) as u8));
}

/// Appends `value` as two hexadecimal digits.
pub fn push_hex_byte(out: &mut String, value: u8)
    ensures
        final(out)@ == old(out)@ + hex_byte(value),
{
    out.append(digit_text(value / 16));
    out.append(digit_text(value % 16));
}

/// Appends `value` as four hexadecimal digits.
pub fn push_hex_u16(out: &mut String, value: u16)
    ensures
        final(out)@ == old(out)@ + hex_u16(value),
{
    push_hex_byte(out, (value / 256) as u8);
    push_hex_byte(out, (value % 256) as u8);
}

/// Appends every byte of `bytes` as a blank and two hexadecimal digits.
pub fn push_hex_dump(out: &mut String, bytes: &[u8])
    ensures
        final(out)@ == old(out)@ + hex_dump(bytes@),
{
    let n = bytes.len();
    let mut i: usize = 0;
    while i < n
        invariant
            n == bytes@.len(),
            i <= n,
            out@ == old(out)@ + hex_dump(bytes@.take(i as int)),
        decreases n - i,
    {
        out.append(" ");
        push_hex_byte(out, bytes[i]);
        proof {
            assert(bytes@.take(i + 1).drop_last() =~= bytes@.take(i as int));
        }
        i = i + 1;
    }
    assert(bytes@.take(n as int) =~= bytes@);
}

/// Appends a hardware address in hexadecimal, colons between its bytes.
pub fn push_colon_hex(out: &mut String, address: &[u8; 6])
    ensures
        final(out)@ == old(out)@ + colon_hex(*address),
{
    push_hex_byte(out, address[0]);
    out.append(":");
    push_hex_byte(out, address[1]);
    out.append(":");
    push_hex_byte(out, address[2]);
    out.append(":");
    push_hex_byte(out, address[3]);
    out.append(":");
    push_hex_byte(out, address[4]);
    out.append(":");
    push_hex_byte(out, address[5]);
}

} // verus!
