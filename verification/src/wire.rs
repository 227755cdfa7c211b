//! The bit-exact wire codec for HPACK prefix integers and Huffman-coded
//! strings (RFC 7541 section 5).
//!
//! `int_bytes` and `str_bytes` are the specification of the wire format; the
//! executable functions are proved to append exactly those bytes.

use vstd::arithmetic::power2::{lemma2_to64, pow2};
use vstd::prelude::*;

use crate::huffman::{huff, huffman_encode_into};

verus! {

/// Largest integer the prefix codec accepts; larger values are a programmer
/// error in the caller (RFC 7541 integers in this encoder stay below 2^28).
pub const MAX_PREFIX_INT: usize = 0x0fff_ffff;

/// Largest string length the string codec accepts.  Keeps the Huffman output
/// length (at most four bytes per input byte) under `MAX_PREFIX_INT`.
pub const MAX_STRING_LEN: usize = 0x03ff_ffff;

/// Largest value that still fits in an `prefix_bits`-bit prefix together with
/// the flag bits, i.e. `2^prefix_bits - 1`.
pub open spec fn prefix_limit(prefix_bits: int) -> int {
    pow2(prefix_bits as nat) - 1
}

/// Continuation bytes of a prefix integer: 7 bits per byte, least-significant
/// group first, high bit set on every byte but the last.
pub open spec fn int_cont(v: int) -> Seq<u8>
    decreases v,
{
    if v < 128 {
        seq![v as u8]
    } else {
        seq![(128 + v % 128) as u8] + int_cont(v / 128)
    }
}

/// The full wire encoding of `v` under a `prefix_bits`-bit prefix with base
/// byte `first_byte` (whose low `prefix_bits` bits are zero).
pub open spec fn int_bytes(v: int, prefix_bits: int, first_byte: u8) -> Seq<u8> {
    if v < prefix_limit(prefix_bits) {
        seq![(first_byte + v) as u8]
    } else {
        seq![(first_byte + prefix_limit(prefix_bits)) as u8] + int_cont(
            v - prefix_limit(prefix_bits),
        )
    }
}

/// The wire encoding of an octet string: always Huffman-coded, with a
/// 7-bit-prefix length head whose high bit marks the Huffman form.
pub open spec fn str_bytes(s: Seq<u8>) -> Seq<u8> {
    if s.len() == 0 {
        seq![0u8]
    } else {
        int_bytes(huff(s).len() as int, 7, 0x80) + huff(s)
    }
}

/// The wire encoding of a dynamic-table-size-update command: a 5-bit prefix
/// under base `0x20`.
pub open spec fn size_update_bytes(v: int) -> Seq<u8> {
    int_bytes(v, 5, 0x20)
}

/// `2^prefix_bits - 1`, the largest value that fits in the prefix itself.
fn prefix_max(prefix_bits: usize) -> (r: usize)
    requires
        1 <= prefix_bits <= 8,
    ensures
        r == prefix_limit(prefix_bits as int),
{
    proof {
        lemma2_to64();
        assert((prefix_bits == 1 ==> (1usize << prefix_bits) == 2) && (prefix_bits == 2 ==> (
        1usize << prefix_bits) == 4) && (prefix_bits == 3 ==> (1usize << prefix_bits) == 8) && (
        prefix_bits == 4 ==> (1usize << prefix_bits) == 16) && (prefix_bits == 5 ==> (1usize
            << prefix_bits) == 32) && (prefix_bits == 6 ==> (1usize << prefix_bits) == 64) && (
        prefix_bits == 7 ==> (1usize << prefix_bits) == 128) && (prefix_bits == 8 ==> (1usize
            << prefix_bits) == 256)) by (bit_vector);
    }
    let s = 1usize << prefix_bits;
    s - 1
}

/// True if `value` can be fully encoded in the first byte of a
/// `prefix_bits`-bit-prefix integer.
pub fn encode_int_one_byte(value: usize, prefix_bits: usize) -> (r: bool)
    requires
        1 <= prefix_bits <= 8,
    ensures
        r == (value < prefix_limit(prefix_bits as int)),
{
    value < prefix_max(prefix_bits)
}

/// Appends the prefix-integer encoding of `value` to `dst`.
///
/// `first_byte` carries the representation's flag bits; its low `prefix_bits`
/// bits must be zero.
pub fn encode_int(value: usize, prefix_bits: usize, first_byte: u8, dst: &mut Vec<u8>)
    requires
        1 <= prefix_bits <= 8,
        value <= MAX_PREFIX_INT,
        first_byte as int % (prefix_limit(prefix_bits as int) + 1) == 0,
    ensures
        final(dst)@ == old(dst)@ + int_bytes(value as int, prefix_bits as int, first_byte),
{
    let low = prefix_max(prefix_bits);
    proof {
        lemma2_to64();
        if prefix_bits == 1 {
            assert(first_byte as int % 2 == 0 && first_byte as int <= 254);
        } else if prefix_bits == 2 {
            assert(first_byte as int % 4 == 0 && first_byte as int <= 252);
        } else if prefix_bits == 3 {
            assert(first_byte as int % 8 == 0 && first_byte as int <= 248);
        } else if prefix_bits == 4 {
            assert(first_byte as int % 16 == 0 && first_byte as int <= 240);
        } else if prefix_bits == 5 {
            assert(first_byte as int % 32 == 0 && first_byte as int <= 224);
        } else if prefix_bits == 6 {
            assert(first_byte as int % 64 == 0 && first_byte as int <= 192);
        } else if prefix_bits == 7 {
            assert(first_byte as int % 128 == 0 && first_byte as int <= 128);
        } else {
            assert(first_byte as int % 256 == 0 && first_byte as int == 0);
        }
        assert(first_byte as int + prefix_limit(prefix_bits as int) <= 255);
    }
    if value < low {
        dst.push(first_byte + (value as u8));
        assert(dst@ =~= old(dst)@ + int_bytes(value as int, prefix_bits as int, first_byte));
        return ;
    }
    let mut v = value - low;
    dst.push(first_byte + (low as u8));
    assert(old(dst)@ + int_bytes(value as int, prefix_bits as int, first_byte) =~= dst@ + int_cont(
        v as int,
    ));
    while v >= 128
        invariant
            old(dst)@ + int_bytes(value as int, prefix_bits as int, first_byte) == dst@ + int_cont(
                v as int,
            ),
        decreases v,
    {
        dst.push(128 + ((v % 128) as u8));
        proof {
            assert(int_cont(v as int) =~= seq![(128 + (v as int) % 128) as u8] + int_cont(
                v as int / 128,
            ));
        }
        v = v / 128;
    }
    dst.push(v as u8);
    assert(int_cont(v as int) =~= seq![v as u8]);
}

proof fn lemma_int_cont_nonempty(v: int)
    ensures
        int_cont(v).len() >= 1,
    decreases v,
{
    if v >= 128 {
        lemma_int_cont_nonempty(v / 128);
    }
}

/// Appends the string encoding of `val` to `dst`: a placeholder head byte,
/// then the Huffman payload, then the head patched in place — extending the
/// destination and shifting the payload when the head needs more than one
/// byte (the payload length is not known until Huffman encoding completes).
pub fn encode_str(val: &Vec<u8>, dst: &mut Vec<u8>)
    requires
        val@.len() <= MAX_STRING_LEN,
    ensures
        final(dst)@ == old(dst)@ + str_bytes(val@),
{
    proof {
        lemma2_to64();
    }
    if val.len() != 0 {
        let idx = dst.len();
        // Push a placeholder byte for the length head.
        dst.push(0);
        huffman_encode_into(val, dst);
        let ghost mid = dst@;
        let ghost hv = huff(val@);
        let huff_len = dst.len() - (idx + 1);
        assert(huff_len == hv.len() && mid =~= old(dst)@ + seq![0u8] + hv);
        if encode_int_one_byte(huff_len, 7) {
            // The head fits in the placeholder byte.
            dst[idx] = 0x80 + (huff_len as u8);
            assert(dst@ =~= old(dst)@ + str_bytes(val@));
        } else {
            // Encode the head aside, ...
            let mut head: Vec<u8> = Vec::new();
            encode_int(huff_len, 7, 0x80, &mut head);
            let head_len = head.len();
            proof {
                lemma_int_cont_nonempty(huff_len - 127);
            }
            // ... reserve space for its extra bytes, ...
            let mut k: usize = 0;
            while k < head_len - 1
                invariant
                    k <= head_len - 1,
                    dst@ =~= mid + Seq::new(k as nat, |_j: int| 0u8),
                decreases head_len - 1 - k,
            {
                dst.push(0);
                k = k + 1;
                assert(dst@ =~= mid + Seq::new(k as nat, |_j: int| 0u8));
            }
            let total = dst.len();
            assert(total == idx + head_len + huff_len);
            // ... shift the Huffman payload toward the end, ...
            let mut i: usize = 0;
            while i < huff_len
                invariant
                    i <= huff_len,
                    dst@.len() == total,
                    forall|j: int|
                        0 <= j < mid.len() && j < idx + head_len + (huff_len - i) ==> dst@[j]
                            == mid[j],
                    forall|p: int|
                        idx + head_len + huff_len - i <= p < idx + head_len + huff_len
                            ==> #[trigger] dst@[p] == hv[p - idx - head_len],
                decreases huff_len - i,
            {
                let b = dst[idx + 1 + (huff_len - (i + 1))];
                proof {
                    assert(b == mid[idx + 1 + (huff_len - (i + 1))]);
                    assert(b == hv[huff_len - (i + 1)]);
                }
                dst[idx + head_len + (huff_len - (i + 1))] = b;
                i = i + 1;
            }
            // ... and copy in the head.
            let mut j: usize = 0;
            while j < head_len
                invariant
                    j <= head_len,
                    dst@.len() == total,
                    forall|t: int| 0 <= t < idx ==> #[trigger] dst@[t] == mid[t],
                    forall|p: int|
                        idx <= p < idx + j ==> #[trigger] dst@[p] == head@[p - idx],
                    forall|p: int|
                        idx + head_len <= p < idx + head_len + huff_len ==> #[trigger] dst@[p]
                            == hv[p - idx - head_len],
                decreases head_len - j,
            {
                dst[idx + j] = head[j];
                j = j + 1;
            }
            assert(dst@ =~= old(dst)@ + str_bytes(val@));
        }
    } else {
        // The empty string: a zero-length literal head.
        dst.push(0);
        assert(dst@ =~= old(dst)@ + str_bytes(val@));
    }
}

/// Appends the wire form of a dynamic-table-size-update command for `val`.
pub fn encode_size_update(val: usize, dst: &mut Vec<u8>)
    requires
        val <= MAX_PREFIX_INT,
    ensures
        final(dst)@ == old(dst)@ + size_update_bytes(val as int),
{
    proof {
        lemma2_to64();
    }
    encode_int(val, 5, 0x20, dst)
}

} // verus!
