//! The difficulty predicate: does a digest begin with at least `difficulty`
//! zero bits?
//!
//! The check is byte-wise: the first `difficulty / 8` bytes must be zero, and
//! when `difficulty % 8 > 0` the next byte must have its top `difficulty % 8`
//! bits zero.  A difficulty whose implied byte index falls outside the digest
//! is never met; it is not a fault.

use vstd::prelude::*;
use vstd::arithmetic::div_mod::lemma_fundamental_div_mod_converse;

verus! {

/// Mask with the top `rem` bits of a byte set, `1 <= rem <= 7`.
pub open spec fn top_bits_mask(rem: u32) -> u8
    recommends
        1 <= rem <= 7,
{
    (0xffu8 << ((8 - rem) as u8)) as u8
}

/// The meaning of "digest `hash` meets difficulty `difficulty`", exactly as
/// the byte-wise check states it.  All indices the check needs must lie
/// inside the digest; otherwise the difficulty is not met.
pub open spec fn meets_difficulty_spec(hash: Seq<u8>, difficulty: u32) -> bool {
    let full_bytes = (difficulty / 8) as int;
    let remaining_bits = difficulty % 8;
    &&& full_bytes + (if remaining_bits > 0 {
        1int
    } else {
        0int
    }) <= hash.len()
    &&& (forall|i: int| 0 <= i < full_bytes ==> hash[i] == 0)
    &&& (remaining_bits > 0 ==> hash[full_bytes] & top_bits_mask(remaining_bits) == 0)
}

/// Bit `i` of the digest, counting from the most significant bit of the
/// first byte: bit 0 is the top bit of `hash[0]`, bit 8 the top bit of
/// `hash[1]`, and so on.
pub open spec fn digest_bit(hash: Seq<u8>, i: int) -> bool
    recommends
        0 <= i < 8 * hash.len(),
{
    (hash[i / 8] >> ((7 - (i % 8)) as u8)) & 1 == 1
}

/// Check whether `hash` has at least `difficulty` leading zero bits.
///
/// Difficulty 0 is always met.  A difficulty that would require reading past
/// the end of the digest is reported as not met, never as an out-of-bounds
/// fault.
pub fn check_difficulty(hash: &[u8], difficulty: u32) -> (r: bool)
    ensures
        r == meets_difficulty_spec(hash@, difficulty),
{
    let full_bytes = (difficulty / 8) as usize;
    let remaining_bits = difficulty % 8;
    let needed: usize = if remaining_bits > 0 {
        full_bytes + 1
    } else {
        full_bytes
    };
    if needed > hash.len() {
        return false;
    }
    let mut i: usize = 0;
    while i < full_bytes
        invariant
            0 <= i <= full_bytes,
            full_bytes <= hash@.len(),
            full_bytes == difficulty / 8,
            forall|j: int| 0 <= j < i ==> hash@[j] == 0,
        decreases full_bytes - i,
    {
        if hash[i] != 0 {
            return false;
        }
        i = i + 1;
    }
    if remaining_bits > 0 {
        let shift: u32 = 8 - remaining_bits;
        let mask: u8 = 0xffu8 << shift;
        if hash[full_bytes] & mask != 0 {
            return false;
        }
    }
    true
}

/// Difficulty zero asks for nothing and is met by every digest.
pub proof fn lemma_difficulty_zero_met(hash: Seq<u8>)
    ensures
        meets_difficulty_spec(hash, 0),
{
}

/// A difficulty beyond the digest's bit length is never met: the byte it
/// would have to inspect does not exist.
pub proof fn lemma_difficulty_beyond_digest(hash: Seq<u8>, difficulty: u32)
    requires
        difficulty > 8 * hash.len(),
    ensures
        !meets_difficulty_spec(hash, difficulty),
{
}

/// At a difficulty of exactly the digest's bit length, only the literally
/// all-zero digest passes.
pub proof fn lemma_full_difficulty_all_zero(hash: Seq<u8>, difficulty: u32)
    requires
        difficulty == 8 * hash.len(),
    ensures
        meets_difficulty_spec(hash, difficulty) <==> (forall|i: int|
            0 <= i < hash.len() ==> hash[i] == 0),
{
}

proof fn lemma_zero_byte_bit(s: u8)
    ensures
        (0u8 >> s) & 1 == 0,
{
    assert((0u8 >> s) & 1 == 0) by (bit_vector);
}

proof fn lemma_bit_is_boolean(x: u8, s: u8)
    ensures
        (x >> s) & 1 == 0 || (x >> s) & 1 == 1,
{
    assert((x >> s) & 1 == 0 || (x >> s) & 1 == 1) by (bit_vector);
}

proof fn lemma_byte_from_bits(x: u8)
    requires
        forall|s: u8| s <= 7 ==> #[trigger] ((x >> s) & 1) == 0,
    ensures
        x == 0,
{
    assert((x >> 0u8) & 1 == 0);
    assert((x >> 1u8) & 1 == 0);
    assert((x >> 2u8) & 1 == 0);
    assert((x >> 3u8) & 1 == 0);
    assert((x >> 4u8) & 1 == 0);
    assert((x >> 5u8) & 1 == 0);
    assert((x >> 6u8) & 1 == 0);
    assert((x >> 7u8) & 1 == 0);
    assert(x == 0) by (bit_vector)
        requires
            (x >> 0u8) & 1 == 0,
            (x >> 1u8) & 1 == 0,
            (x >> 2u8) & 1 == 0,
            (x >> 3u8) & 1 == 0,
            (x >> 4u8) & 1 == 0,
            (x >> 5u8) & 1 == 0,
            (x >> 6u8) & 1 == 0,
            (x >> 7u8) & 1 == 0,
    ;
}

proof fn lemma_mask_covers(x: u8, m: u8, s: u8)
    requires
        1 <= m <= 7,
        m <= s <= 7,
        x & (0xffu8 << m) == 0,
    ensures
        (x >> s) & 1 == 0,
{
    assert((x >> s) & 1 == 0) by (bit_vector)
        requires
            1 <= m <= 7,
            m <= s <= 7,
            x & (0xffu8 << m) == 0,
    ;
}

proof fn lemma_mask_from_bits(x: u8, m: u8)
    requires
        1 <= m <= 7,
        forall|s: u8| m <= s <= 7 ==> #[trigger] ((x >> s) & 1) == 0,
    ensures
        x & (0xffu8 << m) == 0,
{
    assert(m <= 1 ==> (x >> 1u8) & 1 == 0);
    assert(m <= 2 ==> (x >> 2u8) & 1 == 0);
    assert(m <= 3 ==> (x >> 3u8) & 1 == 0);
    assert(m <= 4 ==> (x >> 4u8) & 1 == 0);
    assert(m <= 5 ==> (x >> 5u8) & 1 == 0);
    assert(m <= 6 ==> (x >> 6u8) & 1 == 0);
    assert(m <= 7 ==> (x >> 7u8) & 1 == 0);
    assert(x & (0xffu8 << m) == 0) by (bit_vector)
        requires
            1 <= m <= 7,
            m <= 1 ==> (x >> 1u8) & 1 == 0,
            m <= 2 ==> (x >> 2u8) & 1 == 0,
            m <= 3 ==> (x >> 3u8) & 1 == 0,
            m <= 4 ==> (x >> 4u8) & 1 == 0,
            m <= 5 ==> (x >> 5u8) & 1 == 0,
            m <= 6 ==> (x >> 6u8) & 1 == 0,
            m <= 7 ==> (x >> 7u8) & 1 == 0,
    ;
}

/// The byte-wise check is exactly the bit-wise statement: for a difficulty
/// within the digest's bit length, the difficulty is met if and only if
/// each of the first `difficulty` leading bits is zero.  In particular a
/// digest whose required bits are all zero passes, and setting any one of
/// those bits makes it fail.
pub proof fn lemma_meets_difficulty_bits(hash: Seq<u8>, difficulty: u32)
    requires
        difficulty <= 8 * hash.len(),
    ensures
        meets_difficulty_spec(hash, difficulty) <==> (forall|j: int|
            0 <= j < difficulty ==> !#[trigger] digest_bit(hash, j)),
{
    let full = (difficulty / 8) as int;
    let rem = difficulty % 8;
    assert(difficulty == 8 * full + rem);
    assert(0 <= rem < 8);
    if meets_difficulty_spec(hash, difficulty) {
        assert forall|j: int| 0 <= j < difficulty implies !#[trigger] digest_bit(hash, j) by {
            let b = j / 8;
            let k = j % 8;
            assert(j == 8 * b + k);
            assert(0 <= k < 8);
            let s = (7 - k) as u8;
            assert(s <= 7);
            if b < full {
                assert(hash[b] == 0);
                lemma_zero_byte_bit(s);
            } else {
                assert(b == full && k < rem);
                let m = (8 - rem) as u8;
                assert(top_bits_mask(rem) == 0xffu8 << m);
                lemma_mask_covers(hash[full], m, s);
            }
        }
    }
    if forall|j: int| 0 <= j < difficulty ==> !#[trigger] digest_bit(hash, j) {
        assert forall|i: int| 0 <= i < full implies hash[i] == 0 by {
            assert forall|s: u8| s <= 7 implies #[trigger] ((hash[i] >> s) & 1) == 0 by {
                let j = 8 * i + 7 - (s as int);
                assert(0 <= j < difficulty);
                assert(!digest_bit(hash, j));
                lemma_fundamental_div_mod_converse(j, 8, i, 7 - (s as int));
                assert((7 - (j % 8)) as u8 == s);
                lemma_bit_is_boolean(hash[i], s);
            }
            lemma_byte_from_bits(hash[i]);
        }
        if rem > 0 {
            let m = (8 - rem) as u8;
            assert forall|s: u8| m <= s <= 7 implies #[trigger] ((hash[full] >> s) & 1) == 0 by {
                let j = 8 * full + 7 - (s as int);
                assert(0 <= j < difficulty);
                assert(!digest_bit(hash, j));
                lemma_fundamental_div_mod_converse(j, 8, full, 7 - (s as int));
                assert((7 - (j % 8)) as u8 == s);
                lemma_bit_is_boolean(hash[full], s);
            }
            lemma_mask_from_bits(hash[full], m);
            assert(top_bits_mask(rem) == 0xffu8 << m);
        }
    }
}

} // verus!
