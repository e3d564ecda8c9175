//! The Internet checksum shared by the IPv4 header and the ICMP message:
//! the one's complement of the one's-complement sum of the 16-bit big-endian
//! words of a byte sequence.

use vstd::prelude::*;

verus! {

/// What one unit of the byte at `offset` adds to the sum of words: a byte at
/// an even offset is the high byte of its word, one at an odd offset the low
/// byte.
pub open spec fn byte_weight(offset: int) -> nat {
    if offset % 2 == 0 {
        256
    } else {
        1
    }
}

/// The sum of the 16-bit big-endian words of `bytes`, as a mathematical
/// integer. A trailing byte without a partner counts as the high byte of a
/// word whose low byte is zero.
pub open spec fn word_sum(bytes: Seq<u8>) -> nat
    decreases bytes.len(),
{
    if bytes.len() == 0 {
        0
    } else {
        word_sum(bytes.drop_last()) + byte_weight(bytes.len() - 1) * (bytes.last() as nat)
    }
}

/// Folds the carries above bit 15 back into the low 16 bits until none is
/// left.
pub open spec fn fold_carries(sum: nat) -> nat
    decreases sum,
{
    if sum < 0x1_0000 {
        sum
    } else {
        fold_carries((sum % 0x1_0000 + sum / 0x1_0000) as nat)
    }
}

/// The Internet checksum of `bytes`.
pub open spec fn internet_checksum(bytes: Seq<u8>) -> u16 {
    (0xFFFF - fold_carries(word_sum(bytes))) as u16
}

/// `bytes` with the 16-bit big-endian `word` written at `offset`.
pub open spec fn with_word(bytes: Seq<u8>, offset: int, word: u16) -> Seq<u8> {
    bytes.update(offset, (word / 256) as u8).update(offset + 1, (word % 256) as u8)
}

/// Folding leaves zero alone and maps every other sum to the member of
/// `1..=0xFFFF` that is congruent to it modulo `0xFFFF`. A folded sum
/// therefore fits in 16 bits.
pub proof fn lemma_fold_carries_closed_form(sum: nat)
    ensures
        fold_carries(sum) == if sum == 0 {
            0
        } else {
            (sum - 1) % 0xFFFF + 1
        },
        fold_carries(sum) <= 0xFFFF,
    decreases sum,
{
    if sum >= 0x1_0000 {
        let next = (sum % 0x1_0000 + sum / 0x1_0000) as nat;
        lemma_fold_carries_closed_form(next);
        assert((sum - 1) % 0xFFFF == (next - 1) % 0xFFFF) by {
            vstd::arithmetic::div_mod::lemma_mod_multiples_vanish(
                (sum / 0x1_0000) as int,
                next - 1,
                0xFFFF,
            );
        }
    }
}

/// Folding may be done early: a partial sum can be folded before the next
/// word is added.
pub proof fn lemma_fold_carries_add(sum: nat, word: nat)
    ensures
        fold_carries(fold_carries(sum) + word) == fold_carries(sum + word),
{
    lemma_fold_carries_closed_form(sum);
    lemma_fold_carries_closed_form(sum + word);
    lemma_fold_carries_closed_form(fold_carries(sum) + word);
    if sum > 0 {
        let k = (sum - 1) / 0xFFFF;
        vstd::arithmetic::div_mod::lemma_mod_multiples_vanish(
            k,
            fold_carries(sum) + word - 1,
            0xFFFF,
        );
    }
}

/// Appending a byte adds that byte, weighted by the offset it lands on.
pub proof fn lemma_word_sum_push(bytes: Seq<u8>, byte: u8)
    ensures
        word_sum(bytes.push(byte)) == word_sum(bytes) + byte_weight(bytes.len() as int) * (
        byte as nat),
{
    assert(bytes.push(byte).drop_last() =~= bytes);
}

/// Replacing one byte changes the sum by the weighted difference.
pub proof fn lemma_word_sum_update(bytes: Seq<u8>, offset: int, byte: u8)
    requires
        0 <= offset < bytes.len(),
    ensures
        word_sum(bytes.update(offset, byte)) == word_sum(bytes) + byte_weight(offset) * (
        byte as nat) - byte_weight(offset) * (bytes[offset] as nat),
    decreases bytes.len(),
{
    if offset == bytes.len() - 1 {
        assert(bytes.update(offset, byte).drop_last() =~= bytes.drop_last());
    } else {
        lemma_word_sum_update(bytes.drop_last(), offset, byte);
        assert(bytes.update(offset, byte).drop_last() =~= bytes.drop_last().update(offset, byte));
    }
}

/// A sequence that follows an even number of bytes keeps its own words.
pub proof fn lemma_word_sum_concat(front: Seq<u8>, back: Seq<u8>)
    requires
        front.len() % 2 == 0,
    ensures
        word_sum(front + back) == word_sum(front) + word_sum(back),
    decreases back.len(),
{
    if back.len() == 0 {
    } else {
        lemma_word_sum_concat(front, back.drop_last());
        assert((front + back).drop_last() =~= front + back.drop_last());
    }
}

/// The sum, taken word by word from the front: the first two bytes are a
/// big-endian word and the words of the rest follow; a single byte is the
/// high byte of a word whose low byte is zero.
pub proof fn lemma_word_sum_by_words(bytes: Seq<u8>)
    ensures
        word_sum(bytes) == if bytes.len() == 0 {
            0
        } else if bytes.len() == 1 {
            256 * bytes[0]
        } else {
            256 * bytes[0] + bytes[1] + word_sum(bytes.skip(2))
        },
{
    if bytes.len() == 1 {
        assert(word_sum(bytes.drop_last()) == 0);
    } else if bytes.len() >= 2 {
        let first = bytes.take(2);
        lemma_word_sum_push(Seq::empty(), bytes[0]);
        lemma_word_sum_push(seq![bytes[0]], bytes[1]);
        assert(seq![bytes[0]].push(bytes[1]) =~= first);
        lemma_word_sum_concat(first, bytes.skip(2));
        assert(first + bytes.skip(2) =~= bytes);
    }
}

/// Writing a word over a zeroed, word-aligned field adds that word to the
/// sum.
pub proof fn lemma_word_sum_with_word(bytes: Seq<u8>, offset: int, word: u16)
    requires
        0 <= offset,
        offset % 2 == 0,
        offset + 1 < bytes.len(),
        bytes[offset] == 0,
        bytes[offset + 1] == 0,
    ensures
        word_sum(with_word(bytes, offset, word)) == word_sum(bytes) + word,
{
    let high = (word / 256) as u8;
    let low = (word % 256) as u8;
    lemma_word_sum_update(bytes, offset, high);
    lemma_word_sum_update(bytes.update(offset, high), offset + 1, low);
    assert(byte_weight(offset) == 256 && byte_weight(offset + 1) == 1);
}

/// The verification identity. Take a region whose word-aligned checksum
/// field holds zero, compute the checksum of the region and write it into the
/// field: the checksum of the region, the field now included, is zero.
pub proof fn lemma_checksum_verifies(bytes: Seq<u8>, offset: int)
    requires
        0 <= offset,
        offset % 2 == 0,
        offset + 1 < bytes.len(),
        bytes[offset] == 0,
        bytes[offset + 1] == 0,
    ensures
        internet_checksum(with_word(bytes, offset, internet_checksum(bytes))) == 0,
{
    let sum = word_sum(bytes);
    let stored = internet_checksum(bytes);
    lemma_fold_carries_closed_form(sum);
    lemma_word_sum_with_word(bytes, offset, stored);
    let total = sum + stored;
    lemma_fold_carries_closed_form(total as nat);
    if sum > 0 {
        let k = (sum - 1) / 0xFFFF;
        vstd::arithmetic::div_mod::lemma_mod_multiples_vanish(k, 0xFFFE, 0xFFFF);
    }
}

/// Computes the Internet checksum of `data`.
///
/// The words are added one by one and each carry is folded back as soon as
/// it appears, so the running sum never leaves 17 bits, however long `data`
/// is.
pub fn checksum(data: &[u8]) -> (sum: u16)
    ensures
        sum == internet_checksum(data@),
{
    let n = data.len();
    let mut folded: u32 = 0;
    let mut i: usize = 0;
    while i < n
        invariant
            n == data@.len(),
            i <= n,
            i % 2 == 0 || i == n,
            folded <= 0xFFFF,
            folded == fold_carries(word_sum(data@.take(i as int))),
        decreases n - i,
    {
        let ghost before = data@.take(i as int);
        let high: u32 = data[i] as u32;
        let mut word: u32 = high * 256;
        proof {
            lemma_word_sum_push(before, data@[i as int]);
            assert(before.push(data@[i as int]) =~= data@.take(i + 1));
        }
        if i + 1 < n {
            word = word + data[i + 1] as u32;
            proof {
                lemma_word_sum_push(data@.take(i + 1), data@[i + 1]);
                assert(data@.take(i + 1).push(data@[i + 1]) =~= data@.take(i + 2));
            }
            i = i + 2;
        } else {
            i = n;
        }
        proof {
            lemma_fold_carries_add(word_sum(before), word as nat);
        }
        let wide: u32 = folded + word;
        folded = if wide > 0xFFFF {
            assert(fold_carries(wide as nat) == fold_carries((wide - 0xFFFF) as nat));
            wide - 0xFFFF
        } else {
            wide
        };
    }
    assert(data@.take(n as int) =~= data@);
    (0xFFFF - folded) as u16
}

} // verus!
