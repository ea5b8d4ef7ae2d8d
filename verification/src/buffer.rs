//! The contract under which the library handles `bytes::Bytes` buffers.
//!
//! A `Bytes` value is opaque to the verifier. Everything the library knows
//! about one is what [`bytes_contents`] says it holds; the three contracts
//! below are believed, not proved, to relate buffers through that name.

use bytes::Bytes;
use vstd::prelude::*;

verus! {

#[verifier::external_type_specification]
#[verifier::external_body]
pub struct ExBytes(bytes::Bytes);

/// The bytes that a buffer holds, in order.
pub uninterp spec fn bytes_contents(buffer: Bytes) -> Seq<u8>;

/// `Bytes::clone`: the new handle holds the same bytes as the one cloned.
pub assume_specification[ <Bytes as Clone>::clone ](buffer: &Bytes) -> (out: Bytes)
    ensures
        bytes_contents(out) == bytes_contents(*buffer),
;

/// `Bytes::copy_from_slice`: the new buffer holds a copy of the slice.
#[verifier::external_body]
pub(crate) fn bytes_from_slice(data: &[u8]) -> (out: Bytes)
    ensures
        bytes_contents(out) == data@,
{
    Bytes::copy_from_slice(data)
}

/// `<Bytes as AsRef<[u8]>>::as_ref`: the slice borrowed from a buffer is
/// the bytes it holds.
#[verifier::external_body]
pub(crate) fn bytes_as_slice(buffer: &Bytes) -> (out: &[u8])
    ensures
        out@ == bytes_contents(*buffer),
{
    buffer.as_ref()
}

} // verus!
