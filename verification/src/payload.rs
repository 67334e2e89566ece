//! Payload bytes: the shared, cheaply cloned buffers of the `bytes` crate.

use bytes::Bytes;
use vstd::prelude::*;

verus! {

/// `bytes::Bytes`, known by its contents alone.
#[verifier::external_type_specification]
#[verifier::external_body]
pub struct ExBytes(Bytes);

/// The bytes that a buffer holds.
pub uninterp spec fn contents(b: Bytes) -> Seq<u8>;

/// The bytes of an optional buffer.
pub open spec fn optional_contents(b: Option<Bytes>) -> Option<Seq<u8>> {
    match b {
        Some(b) => Some(contents(b)),
        None => None,
    }
}

/// `Bytes::len`: the number of bytes held.
pub assume_specification[ Bytes::len ](b: &Bytes) -> (r: usize)
    ensures
        r == contents(*b).len(),
;

/// `Bytes::clone`: another handle on the same bytes.
pub assume_specification[ <Bytes as Clone>::clone ](b: &Bytes) -> (r: Bytes)
    ensures
        contents(r) == contents(*b),
;

/// `Bytes::copy_from_slice`: a buffer that holds a copy of `data`.
pub assume_specification[ Bytes::copy_from_slice ](data: &[u8]) -> (r: Bytes)
    ensures
        contents(r) == data@,
;

/// `Bytes::from(Vec<u8>)`: a buffer that holds the bytes of `data`.
#[verifier::external_body]
pub(crate) fn bytes_from_vec(data: Vec<u8>) -> (r: Bytes)
    ensures
        contents(r) == data@,
{
    Bytes::from(data)
}

/// `Bytes::as_ref`: the bytes held, as a slice.
#[verifier::external_body]
pub(crate) fn bytes_as_slice(b: &Bytes) -> (r: &[u8])
    ensures
        r@ == contents(*b),
{
    b.as_ref()
}

/// An optional buffer holds the bytes of the buffer that it is, and none holds none.
pub proof fn law_optional_buffers_keep_their_bytes(b: Bytes)
    ensures
        optional_contents(Some(b)) == Some(contents(b)),
        optional_contents(None) is None,
{
}

} // verus!
