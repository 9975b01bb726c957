//! The byte buffers of the `bytes` crate, as the rest of the library sees them.
use bytes::{Bytes, BytesMut};
use vstd::prelude::*;

verus! {

#[verifier::external_type_specification]
#[verifier::external_body]
pub struct ExBytesMut(BytesMut);

#[verifier::external_type_specification]
#[verifier::external_body]
pub struct ExBytes(Bytes);

/// The bytes that a `BytesMut` holds, from its start to its length.
pub uninterp spec fn bytes_mut_contents(b: BytesMut) -> Seq<u8>;

/// The buffer that `BytesMut::clear` leaves: the same storage, with no bytes.
pub uninterp spec fn bytes_mut_cleared(b: BytesMut) -> BytesMut;

/// The bytes that a `Bytes` handle refers to.
pub uninterp spec fn bytes_contents(b: Bytes) -> Seq<u8>;

/// Relies on `BytesMut::with_capacity`: the new buffer holds no bytes.
#[verifier::external_body]
pub(crate) fn bytes_mut_with_capacity(capacity: usize) -> (r: BytesMut)
    ensures
        bytes_mut_contents(r) == Seq::<u8>::empty(),
{
    BytesMut::with_capacity(capacity)
}

/// Relies on `BytesMut::clear`: all bytes are removed, the allocation is kept.
/// It only sets the length to zero, so what it leaves depends on the buffer
/// alone.
#[verifier::external_body]
pub(crate) fn bytes_mut_clear(b: &mut BytesMut)
    ensures
        *final(b) == bytes_mut_cleared(*old(b)),
        bytes_mut_contents(*final(b)) == Seq::<u8>::empty(),
{
    b.clear()
}

/// Relies on `BytesMut::len`: the number of bytes held.
#[verifier::external_body]
pub(crate) fn bytes_mut_len(b: &BytesMut) -> (r: usize)
    ensures
        r == bytes_mut_contents(*b).len(),
{
    b.len()
}

/// Relies on `BytesMut::extend_from_slice`: the bytes are appended at the end.
#[verifier::external_body]
pub(crate) fn bytes_mut_extend(b: &mut BytesMut, data: &[u8])
    ensures
        bytes_mut_contents(*final(b)) == bytes_mut_contents(*old(b)) + data@,
{
    b.extend_from_slice(data)
}

/// Relies on `BytesMut::as_ref`: a view of the bytes held.
#[verifier::external_body]
pub(crate) fn bytes_mut_as_slice(b: &BytesMut) -> (r: &[u8])
    ensures
        r@ == bytes_mut_contents(*b),
{
    b.as_ref()
}

/// Relies on `BytesMut::freeze`: the same storage, now shared and read-only.
#[verifier::external_body]
pub(crate) fn bytes_mut_freeze(b: BytesMut) -> (r: Bytes)
    ensures
        bytes_contents(r) == bytes_mut_contents(b),
{
    b.freeze()
}

/// Relies on `Bytes::try_into_mut`: when this handle is the only one left on
/// its storage, the storage comes back as a `BytesMut`; otherwise the handle
/// is handed back. The bytes are the same either way.
#[verifier::external_body]
pub(crate) fn bytes_try_into_mut(b: Bytes) -> (r: Result<BytesMut, Bytes>)
    ensures
        match r {
            Ok(m) => bytes_mut_contents(m) == bytes_contents(b),
            Err(s) => bytes_contents(s) == bytes_contents(b),
        },
{
    b.try_into_mut()
}

} // verus!
