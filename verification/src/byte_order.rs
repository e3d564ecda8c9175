//! Big-endian ("network order") integers as they lie in a buffer.

use vstd::arithmetic::power::pow;
use vstd::prelude::*;

verus! {

/// The two bytes of `value`, high byte first.
pub open spec fn be16(value: u16) -> Seq<u8> {
    seq![(value / 256) as u8, (value % 256) as u8]
}

/// The 16-bit integer whose high byte is `high` and whose low byte is `low`.
pub open spec fn from_be16(high: u8, low: u8) -> u16 {
    (256 * high + low) as u16
}

/// The lowest `width` bytes of `value`, most significant first.
pub open spec fn be_bytes(value: nat, width: nat) -> Seq<u8>
    decreases width,
{
    if width == 0 {
        Seq::empty()
    } else {
        be_bytes(value / 256, (width - 1) as nat).push((value % 256) as u8)
    }
}

/// The number that `bytes` spell, most significant byte first.
pub open spec fn be_value(bytes: Seq<u8>) -> nat
    decreases bytes.len(),
{
    if bytes.len() == 0 {
        0
    } else {
        256 * be_value(bytes.drop_last()) + bytes.last() as nat
    }
}

/// The two bytes of a 16-bit integer and the integer of two bytes undo each
/// other.
pub proof fn lemma_be16_inverse(value: u16, high: u8, low: u8)
    ensures
        from_be16(be16(value)[0], be16(value)[1]) == value,
        be16(from_be16(high, low)) == seq![high, low],
{
}

/// A big-endian integer of `width` bytes is `width` bytes long.
pub proof fn lemma_be_bytes_len(value: nat, width: nat)
    ensures
        be_bytes(value, width).len() == width,
    decreases width,
{
    if width > 0 {
        lemma_be_bytes_len(value / 256, (width - 1) as nat);
    }
}

/// The bytes of an integer that fits `width` bytes spell that integer.
pub proof fn lemma_be_bytes_read_back(value: nat, width: nat)
    requires
        value < pow(256, width),
    ensures
        be_value(be_bytes(value, width)) == value,
    decreases width,
{
    reveal(pow);
    if width > 0 {
        lemma_be_bytes_read_back(value / 256, (width - 1) as nat);
        assert(be_bytes(value, width).drop_last() =~= be_bytes(value / 256, (width - 1) as nat));
    }
}

/// Reads the big-endian 16-bit integer at `offset`.
pub fn read_u16_be(bytes: &[u8], offset: usize) -> (value: u16)
    requires
        offset + 1 < bytes@.len(),
    ensures
        value == from_be16(bytes@[offset as int], bytes@[offset + 1]),
{
    let high: u16 = bytes[offset] as u16;
    let low: u16 = bytes[offset + 1] as u16;
    high * 256 + low
}

/// Appends `value` to `out`, high byte first.
pub fn push_u16_be(out: &mut Vec<u8>, value: u16)
    ensures
        final(out)@ == old(out)@ + be16(value),
{
    out.push((value / 256) as u8);
    out.push((value % 256) as u8);
}

/// Appends the lowest `width` bytes of `value` to `out`, most significant
/// first.
pub fn push_be(out: &mut Vec<u8>, value: u64, width: usize)
    ensures
        final(out)@ == old(out)@ + be_bytes(value as nat, width as nat),
    decreases width,
{
    if width > 0 {
        push_be(out, value / 256, width - 1);
        out.push((value % 256) as u8);
    } else {
    }
}

} // verus!
