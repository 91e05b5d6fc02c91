//! `bytes::Bytes` as seen from verified code: an opaque, immutable byte
//! buffer whose contents are named by `bytes_view`.
use bytes::Bytes;
use vstd::prelude::*;
use vstd::utf8::encode_utf8;

verus! {

/// Declares the outside type `bytes::Bytes` to Verus, with no fields visible.
#[verifier::external_type_specification]
#[verifier::external_body]
pub struct ExBytes(Bytes);

/// The bytes held by a `Bytes` buffer, in order.
pub uninterp spec fn bytes_view(b: Bytes) -> Seq<u8>;

/// Calls `<Bytes as Deref>::deref`: the slice it hands out is the
/// buffer's contents.
#[verifier::external_body]
pub(crate) fn bytes_as_slice(b: &Bytes) -> (r: &[u8])
    ensures
        r@ == bytes_view(*b),
{
    &b[..]
}

/// Calls `Bytes::from_static`: the new `Bytes` points at the static slice
/// and holds exactly its bytes.
#[verifier::external_body]
pub(crate) fn bytes_from_static(b: &'static [u8]) -> (r: Bytes)
    ensures
        bytes_view(r) == b@,
{
    Bytes::from_static(b)
}

/// Calls `<Bytes as From<String>>::from`, which in its source turns the
/// string into its vector of UTF-8 bytes and takes that buffer over.
#[verifier::external_body]
pub(crate) fn bytes_from_string(s: String) -> (r: Bytes)
    ensures
        bytes_view(r) == encode_utf8(s@),
{
    Bytes::from(s)
}

} // verus!
