//! The output buffer that names and exposition text are encoded into: an
//! outside byte buffer, written append-only, specified by the sequence of
//! bytes it holds.

use vstd::prelude::*;
use bytes::BytesMut;

verus! {

#[verifier::external_type_specification]
#[verifier::external_body]
pub struct ExBytesMut(BytesMut);

/// The bytes a buffer holds, in order.
pub uninterp spec fn bytes_view(b: BytesMut) -> Seq<u8>;

/// Relies on `bytes::BytesMut::new`: a fresh buffer holds no bytes.
#[verifier::external_body]
pub fn buf_new() -> (b: BytesMut)
    ensures
        bytes_view(b) == Seq::<u8>::empty(),
{
    BytesMut::new()
}

/// Relies on `bytes::BytesMut::extend_from_slice`: the slice's bytes are
/// appended after the bytes already held.
#[verifier::external_body]
pub fn buf_extend(b: &mut BytesMut, s: &[u8])
    ensures
        bytes_view(*final(b)) == bytes_view(*old(b)) + s@,
{
    b.extend_from_slice(s);
}

/// Relies on `slice::to_vec`, reached through `BytesMut`'s deref to a byte
/// slice: a copy of the bytes held.
#[verifier::external_body]
pub fn buf_to_vec(b: &BytesMut) -> (v: Vec<u8>)
    ensures
        v@ == bytes_view(*b),
{
    b.as_ref().to_vec()
}

/// Append a single byte.
pub fn buf_push_byte(b: &mut BytesMut, c: u8)
    ensures
        bytes_view(*final(b)) == bytes_view(*old(b)) + seq![c],
{
    let mut one: Vec<u8> = Vec::new();
    one.push(c);
    buf_extend(b, one.as_slice());
    proof {
        assert(one@ =~= seq![c]);
    }
}

} // verus!
