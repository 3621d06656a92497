//! Contracts for the outside items the buffer type is built on: the `bytes`
//! crate's `Bytes` handle, `Arc::try_unwrap` from std, and std's lossy UTF-8
//! decoding.  Everything here is assumed, not proved; each item's doc comment
//! names the outside function it relies on.

use vstd::prelude::*;
use vstd::utf8::encode_utf8;

verus! {

#[verifier::external_type_specification]
#[verifier::external_body]
pub struct ExBytes(bytes::Bytes);

/// The byte sequence a `Bytes` handle holds.
pub uninterp spec fn bytes_content(b: bytes::Bytes) -> Seq<u8>;

/// Relies on `Bytes::copy_from_slice`: the new handle holds a copy of the
/// slice's bytes.
pub assume_specification[ bytes::Bytes::copy_from_slice ](data: &[u8]) -> (r: bytes::Bytes)
    ensures
        bytes_content(r) == data@,
;

/// Relies on `<Bytes as Clone>::clone`: cloning duplicates the reference, and
/// the clone holds the same bytes.
pub assume_specification[ <bytes::Bytes as Clone>::clone ](b: &bytes::Bytes) -> (r: bytes::Bytes)
    ensures
        bytes_content(r) == bytes_content(*b),
;

/// Relies on `<Bytes as From<Vec<u8>>>::from`: the handle takes over the
/// vector's bytes.
pub assume_specification[ <bytes::Bytes as From<std::vec::Vec<u8>>>::from ](
    vec: std::vec::Vec<u8>,
) -> (r: bytes::Bytes)
    ensures
        bytes_content(r) == vec@,
;

/// Relies on `<Bytes as From<String>>::from`: the handle takes over the
/// string's UTF-8 bytes.
pub assume_specification[ <bytes::Bytes as From<std::string::String>>::from ](
    s: std::string::String,
) -> (r: bytes::Bytes)
    ensures
        bytes_content(r) == encode_utf8(s@),
;

/// Relies on `<Bytes as AsRef<[u8]>>::as_ref`: the returned slice is exactly
/// the bytes the handle holds.
pub assume_specification[ <bytes::Bytes as AsRef<[u8]>>::as_ref ](b: &bytes::Bytes) -> (r: &[u8])
    ensures
        r@ == bytes_content(*b),
;

/// Relies on `Arc::try_unwrap`: with a sole holder it returns the inner
/// vector, otherwise it hands the untouched handle back.  Which of the two
/// happens depends on how many holders are live, so both outcomes carry the
/// same content.
#[verifier::external_body]
pub(crate) fn arc_try_unwrap(
    v: std::sync::Arc<std::vec::Vec<u8>>,
) -> (result: Result<std::vec::Vec<u8>, std::sync::Arc<std::vec::Vec<u8>>>)
    ensures
        match result {
            Ok(t) => t@ == v@,
            Err(e) => e@ == v@,
        },
{
    std::sync::Arc::try_unwrap(v)
}

/// What `String::from_utf8_lossy` decodes a byte sequence to.
pub uninterp spec fn lossy_decode(bytes: Seq<u8>) -> Seq<char>;

/// Relies on `String::from_utf8_lossy`: the result depends on the bytes alone,
/// and a valid UTF-8 sequence decodes exactly; `Cow::into_owned` only converts
/// the result into an owned string.
#[verifier::external_body]
pub(crate) fn utf8_lossy(bytes: &[u8]) -> (r: std::string::String)
    ensures
        r@ == lossy_decode(bytes@),
        vstd::utf8::valid_utf8(bytes@) ==> r@ == vstd::utf8::decode_utf8(bytes@),
{
    std::string::String::from_utf8_lossy(bytes).into_owned()
}

} // verus!
