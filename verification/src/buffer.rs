//! The destination of an encode batch: `bytes::BytesMut`, a growable byte
//! buffer shared with the surrounding HTTP/2 machinery.
//!
//! The buffer is opaque to the verifier; its contents are named by
//! [`buf_view`], and the one trusted wrapper below appends to it.

use vstd::prelude::*;

verus! {

#[verifier::external_type_specification]
#[verifier::external_body]
pub struct ExBytesMut(bytes::BytesMut);

/// The bytes a `BytesMut` buffer holds.
pub uninterp spec fn buf_view(b: bytes::BytesMut) -> Seq<u8>;

/// Relies on `BytesMut::extend_from_slice`: it appends the bytes of `src`
/// to the buffer, leaving what precedes them unchanged.
#[verifier::external_body]
pub fn append_to_buf(dst: &mut bytes::BytesMut, src: &Vec<u8>)
    ensures
        buf_view(*final(dst)) == buf_view(*old(dst)) + src@,
{
    dst.extend_from_slice(src.as_slice());
}

} // verus!
