//! The Huffman codec is an external collaborator: a pure function from bytes
//! to bytes, fixed by the code table of RFC 7541 Appendix B.  Its output is
//! named by the uninterpreted function [`huff`]; the one trusted wrapper
//! below performs the encoding.

use vstd::prelude::*;

verus! {

/// The Huffman encoding (RFC 7541 Appendix B) of a byte string.  The result
/// depends on the input bytes alone.
pub uninterp spec fn huff(s: Seq<u8>) -> Seq<u8>;

/// Relies on `httlib_huffman::encode`: it appends to `dst` the Huffman codes
/// of the bytes of `src`, padded with EOS bits to a byte boundary, a function
/// of `src` alone.  Its code table holds an entry for every byte value, so no
/// input errors; every code is at most 30 bits long, so the output holds at
/// most four bytes per input byte.
#[verifier::external_body]
pub fn huffman_encode_into(src: &Vec<u8>, dst: &mut Vec<u8>)
    ensures
        final(dst)@ == old(dst)@ + huff(src@),
        final(dst)@.len() <= old(dst)@.len() + 4 * src@.len(),
{
    let _ = httlib_huffman::encode(src.as_slice(), dst);
}

} // verus!
