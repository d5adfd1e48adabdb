//! Textual representations the search commits to: the decimal form of a
//! nonce (the suffix of every hash candidate) and the hex form of a digest
//! (how a result reports the winning hash).

use vstd::prelude::*;

verus! {

/// The ASCII digit for a value below ten.
pub open spec fn dec_digit(v: nat) -> u8
    recommends
        v < 10,
{
    (48 + v) as u8
}

/// The decimal representation of `n` as ASCII bytes, with no leading zeros
/// (and `"0"` for zero itself).
pub open spec fn dec_rep(n: nat) -> Seq<u8>
    decreases n,
{
    if n < 10 {
        seq![dec_digit(n)]
    } else {
        dec_rep(n / 10).push(dec_digit(n % 10))
    }
}

/// Render `n` in decimal, as its ASCII bytes.
pub fn u64_to_dec(n: u64) -> (r: Vec<u8>)
    ensures
        r@ == dec_rep(n as nat),
    decreases n,
{
    if n < 10 {
        let mut v: Vec<u8> = Vec::new();
        v.push(48 + (n as u8));
        proof {
            assert(v@ =~= dec_rep(n as nat));
        }
        v
    } else {
        let mut v = u64_to_dec(n / 10);
        v.push(48 + ((n % 10) as u8));
        proof {
            assert(v@ =~= dec_rep(n as nat));
        }
        v
    }
}

/// The lowercase hex digit for a value below sixteen.
pub open spec fn hex_digit_char(v: u8) -> u8
    recommends
        v < 16,
{
    if v < 10 {
        (48 + v) as u8
    } else {
        (87 + v) as u8
    }
}

/// The lowercase hex representation of a byte sequence: two digits per byte,
/// high nibble first.
pub open spec fn hex_rep(bytes: Seq<u8>) -> Seq<u8>
    decreases bytes.len(),
{
    if bytes.len() == 0 {
        Seq::empty()
    } else {
        hex_rep(bytes.drop_last()) + seq![
            hex_digit_char(bytes.last() / 16),
            hex_digit_char(bytes.last() % 16),
        ]
    }
}

/// The value of one hex digit, if `c` is one; both cases are accepted.
pub open spec fn hex_val(c: u8) -> Option<u8> {
    if 48 <= c && c <= 57 {
        Some((c - 48) as u8)
    } else if 97 <= c && c <= 102 {
        Some((c - 87) as u8)
    } else if 65 <= c && c <= 70 {
        Some((c - 55) as u8)
    } else {
        None
    }
}

/// The bytes a hex string denotes: `None` on odd length or any non-digit.
pub open spec fn hex_decode_spec(s: Seq<u8>) -> Option<Seq<u8>>
    decreases s.len(),
{
    if s.len() % 2 != 0 {
        None
    } else if s.len() == 0 {
        Some(Seq::empty())
    } else {
        let init = hex_decode_spec(s.subrange(0, s.len() - 2));
        let hi = hex_val(s[s.len() - 2]);
        let lo = hex_val(s[s.len() - 1]);
        match (init, hi, lo) {
            (Some(p), Some(h), Some(l)) => Some(p.push((h * 16 + l) as u8)),
            _ => None,
        }
    }
}

fn hex_digit_byte(v: u8) -> (r: u8)
    requires
        v < 16,
    ensures
        r == hex_digit_char(v),
{
    if v < 10 {
        48 + v
    } else {
        87 + v
    }
}

fn hex_val_byte(c: u8) -> (r: Option<u8>)
    ensures
        r == hex_val(c),
{
    if 48 <= c && c <= 57 {
        Some(c - 48)
    } else if 97 <= c && c <= 102 {
        Some(c - 87)
    } else if 65 <= c && c <= 70 {
        Some(c - 55)
    } else {
        None
    }
}

/// Hex-encode `bytes`, lowercase, two digits per byte.
pub fn hex_encode(bytes: &[u8]) -> (r: Vec<u8>)
    ensures
        r@ == hex_rep(bytes@),
{
    let mut out: Vec<u8> = Vec::new();
    let mut i: usize = 0;
    while i < bytes.len()
        invariant
            0 <= i <= bytes@.len(),
            out@ == hex_rep(bytes@.subrange(0, i as int)),
        decreases bytes@.len() - i,
    {
        let b = bytes[i];
        out.push(hex_digit_byte(b / 16));
        out.push(hex_digit_byte(b % 16));
        proof {
            let s = bytes@.subrange(0, i + 1);
            assert(s.drop_last() =~= bytes@.subrange(0, i as int));
            assert(out@ =~= hex_rep(s));
        }
        i = i + 1;
    }
    proof {
        assert(bytes@.subrange(0, bytes@.len() as int) =~= bytes@);
    }
    out
}

/// If some even-length prefix of `s` already fails to decode, so does `s`.
proof fn lemma_decode_prefix_none(s: Seq<u8>, k: int)
    requires
        s.len() % 2 == 0,
        0 <= k <= s.len(),
        k % 2 == 0,
        hex_decode_spec(s.subrange(0, k)) is None,
    ensures
        hex_decode_spec(s) is None,
    decreases s.len() - k,
{
    if k == s.len() {
        assert(s.subrange(0, k) =~= s);
    } else {
        let t = s.subrange(0, k + 2);
        assert(t.subrange(0, t.len() - 2) =~= s.subrange(0, k));
        assert(hex_decode_spec(t) is None);
        lemma_decode_prefix_none(s, k + 2);
    }
}

/// Decode a hex string to bytes; `None` on odd length or any non-digit.
pub fn hex_decode(s: &[u8]) -> (r: Option<Vec<u8>>)
    ensures
        match r {
            Some(v) => hex_decode_spec(s@) == Some(v@),
            None => hex_decode_spec(s@) is None,
        },
{
    if s.len() % 2 != 0 {
        return None;
    }
    let mut out: Vec<u8> = Vec::new();
    let mut i: usize = 0;
    while i < s.len()
        invariant
            0 <= i <= s@.len(),
            i % 2 == 0,
            s@.len() % 2 == 0,
            hex_decode_spec(s@.subrange(0, i as int)) == Some(out@),
        decreases s@.len() - i,
    {
        let hv = hex_val_byte(s[i]);
        let lv = hex_val_byte(s[i + 1]);
        proof {
            let t = s@.subrange(0, i + 2);
            assert(t.subrange(0, t.len() - 2) =~= s@.subrange(0, i as int));
            assert(t[t.len() - 2] == s@[i as int]);
            assert(t[t.len() - 1] == s@[i + 1]);
        }
        match (hv, lv) {
            (Some(h), Some(l)) => {
                proof {
                    assert(h < 16 && l < 16);
                }
                out.push(h * 16 + l);
                proof {
                    assert(hex_decode_spec(s@.subrange(0, i + 2)) == Some(out@));
                }
            },
            _ => {
                proof {
                    assert(hex_decode_spec(s@.subrange(0, i + 2)) is None);
                    lemma_decode_prefix_none(s@, i + 2);
                }
                return None;
            },
        }
        i = i + 2;
    }
    proof {
        assert(s@.subrange(0, s@.len() as int) =~= s@);
    }
    Some(out)
}

/// The hex representation is twice as long as what it encodes.
pub proof fn lemma_hex_rep_len(bytes: Seq<u8>)
    ensures
        hex_rep(bytes).len() == 2 * bytes.len(),
    decreases bytes.len(),
{
    if bytes.len() > 0 {
        lemma_hex_rep_len(bytes.drop_last());
    }
}

/// Encoding a nibble and reading it back is the identity.
proof fn lemma_hex_val_digit(v: u8)
    requires
        v < 16,
    ensures
        hex_val(hex_digit_char(v)) == Some(v),
{
}

/// Round trip: hex-encoding any byte sequence and decoding the result
/// reproduces the original bytes exactly.
pub proof fn lemma_hex_round_trip(bytes: Seq<u8>)
    ensures
        hex_decode_spec(hex_rep(bytes)) == Some(bytes),
    decreases bytes.len(),
{
    lemma_hex_rep_len(bytes);
    if bytes.len() == 0 {
        assert(hex_rep(bytes) =~= Seq::<u8>::empty());
        assert(bytes =~= Seq::<u8>::empty());
    } else {
        let dl = bytes.drop_last();
        let b = bytes.last();
        lemma_hex_round_trip(dl);
        lemma_hex_rep_len(dl);
        let s = hex_rep(bytes);
        assert(s.subrange(0, s.len() - 2) =~= hex_rep(dl));
        assert(s[s.len() - 2] == hex_digit_char(b / 16));
        assert(s[s.len() - 1] == hex_digit_char(b % 16));
        lemma_hex_val_digit(b / 16);
        lemma_hex_val_digit(b % 16);
        assert((b / 16) * 16 + (b % 16) == b) by (bit_vector);
        assert(dl.push(b) =~= bytes);
    }
}

} // verus!
