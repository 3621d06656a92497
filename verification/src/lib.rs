//! Core types for record-parsing pipeline plugins: a byte buffer with three
//! representations and explicit conversion costs, together with the processor
//! interface that pipeline stages implement and the errors they report.

use std::sync::Arc;

use bytes::Bytes;
use vstd::prelude::*;
use vstd::string::StringExecFns;
use vstd::string::StringSliceAdditionalSpecFns;
use vstd::utf8::encode_scalar;
use vstd::utf8::encode_utf8;

mod error;
mod ext_specs;
mod uvs_specs;

pub use error::contains_sub;
pub use error::lemma_conversion_keeps_message;
pub use error::lemma_wrapped_message_survives;
pub use error::spec_cause_part;
pub use error::spec_detail_part;
pub use error::spec_info_part;
pub use error::wraps_data_kind;
pub use error::DataErrKind;
pub use error::WparseError;
pub use error::WparseReason;
pub use error::WparseResult;
pub use error::WplParseError;
pub use error::WplParseReason;
pub use error::WplParseResult;
pub use ext_specs::bytes_content;
pub use ext_specs::lossy_decode;
pub use uvs_specs::spec_conf_message;
pub use uvs_specs::spec_uvs_message;
use ext_specs::arc_try_unwrap;
use ext_specs::utf8_lossy;

verus! {

/// A contiguous byte payload in one of three representations, each with its
/// own ownership and conversion cost:
///
/// - `String`: an owned, growable text buffer; cheap to append, never shared.
/// - `Bytes`: an owned handle to an immutable byte sequence; cloning
///   duplicates a reference, not the data.
/// - `ArcBytes`: a byte vector behind a shared, reference-counted handle;
///   reads are zero-copy, and any mutation would require a full copy.
///
/// A value is immutable once constructed: every transform consumes it and
/// produces a new one.
#[derive(Debug, Clone)]
pub enum RawData {
    String(String),
    Bytes(Bytes),
    ArcBytes(Arc<Vec<u8>>),
}

impl View for RawData {
    type V = Seq<u8>;

    /// The byte content, the same for all three representations.
    open spec fn view(&self) -> Seq<u8> {
        match self {
            RawData::String(s) => encode_utf8(s@),
            RawData::Bytes(b) => bytes_content(*b),
            RawData::ArcBytes(a) => a@,
        }
    }
}

impl RawData {
    /// What `render` produces: the text itself for a textual buffer, and the
    /// lossy UTF-8 decoding of the bytes for the two binary representations.
    pub open spec fn spec_rendered(&self) -> Seq<char> {
        match self {
            RawData::String(s) => s@,
            RawData::Bytes(b) => lossy_decode(bytes_content(*b)),
            RawData::ArcBytes(a) => lossy_decode(a@),
        }
    }

    /// Builds a textual buffer; always succeeds and never shares its storage.
    pub fn from_string(value: &str) -> (r: RawData)
        ensures
            r matches RawData::String(s) && s@ == value@,
            r@ == value.spec_bytes(),
    {
        RawData::String(String::from_str(value))
    }

    /// Wraps an owned, immutable byte handle; always succeeds, and cloning
    /// the result duplicates a reference, not the data.
    pub fn from_bytes(data: Bytes) -> (r: RawData)
        ensures
            r == RawData::Bytes(data),
            r@ == bytes_content(data),
    {
        RawData::Bytes(data)
    }

    /// Wraps a shared byte vector without copying it.
    pub fn from_arc_bytes(data: Arc<Vec<u8>>) -> (r: Self)
        ensures
            r == RawData::ArcBytes(data),
            r@ == data@,
    {
        RawData::ArcBytes(data)
    }

    /// Builds a shared-bytes buffer from the older shared-slice handle.  The
    /// slice must be copied into the vector this representation requires, so
    /// this is the slower path; callers that can should use `from_arc_bytes`.
    pub fn from_arc_slice(data: Arc<[u8]>) -> (r: Self)
        ensures
            r is ArcBytes,
            r@ == data@,
    {
        RawData::ArcBytes(Arc::new(vstd::slice::slice_to_vec(&*data)))
    }

    /// Borrows the byte content; no allocation for any representation.
    pub fn as_bytes(&self) -> (r: &[u8])
        ensures
            r@ == self@,
    {
        match self {
            RawData::String(s) => s.as_str().as_bytes(),
            RawData::Bytes(b) => b.as_ref(),
            RawData::ArcBytes(arc) => (&**arc).as_slice(),
        }
    }

    /// Copies the content into a fresh, independent `Bytes` handle; the
    /// receiver is left untouched.
    pub fn to_bytes(&self) -> (r: Bytes)
        ensures
            bytes_content(r) == self@,
    {
        match self {
            RawData::String(s) => Bytes::copy_from_slice(s.as_str().as_bytes()),
            RawData::Bytes(b) => b.clone(),
            RawData::ArcBytes(arc) => Bytes::copy_from_slice((&**arc).as_slice()),
        }
    }

    /// Consumes the buffer and yields its content as `Bytes`, reusing the
    /// existing storage where possible: always for the first two
    /// representations, and for a shared vector exactly when the receiver is
    /// its sole holder at the moment of the call.
    pub fn into_bytes(self) -> (r: Bytes)
        ensures
            bytes_content(r) == self@,
    {
        match self {
            RawData::String(s) => Bytes::from(s),
            RawData::Bytes(b) => b,
            RawData::ArcBytes(arc) => match arc_try_unwrap(arc) {
                Ok(vec) => Bytes::from(vec),
                Err(shared) => Bytes::copy_from_slice((&*shared).as_slice()),
            },
        }
    }

    /// Reports the representation, not the sharing cardinality: true exactly
    /// for the shared-vector variant.
    pub fn is_zero_copy(&self) -> (r: bool)
        ensures
            r == (self is ArcBytes),
    {
        matches!(self, RawData::ArcBytes(_))
    }

    /// The length of the byte content.
    pub fn len(&self) -> (r: usize)
        ensures
            r == self@.len(),
    {
        self.as_bytes().len()
    }

    /// True exactly when the byte content is empty, for every representation.
    pub fn is_empty(&self) -> (r: bool)
        ensures
            r == (self@.len() == 0),
    {
        match self {
            RawData::String(value) => {
                proof {
                    lemma_encode_utf8_empty(value@);
                }
                value.as_str().is_empty()
            },
            RawData::Bytes(value) => value.as_ref().is_empty(),
            RawData::ArcBytes(arc) => (&**arc).is_empty(),
        }
    }

    /// Renders the content as human-readable text.  This never fails: for the
    /// binary representations, byte sequences that are not valid UTF-8 are
    /// decoded lossily, with replacement markers for the invalid parts.
    pub fn render(&self) -> (r: String)
        ensures
            r@ == self.spec_rendered(),
    {
        match self {
            RawData::String(s) => s.clone(),
            RawData::Bytes(b) => utf8_lossy(b.as_ref()),
            RawData::ArcBytes(arc) => utf8_lossy((&**arc).as_slice()),
        }
    }
}

/// The UTF-8 encoding of a character sequence is empty exactly when the
/// sequence itself is.
pub proof fn lemma_encode_utf8_empty(chars: Seq<char>)
    ensures
        encode_utf8(chars).len() == 0 <==> chars.len() == 0,
{
    if chars.len() > 0 {
        assert(encode_scalar(chars[0] as u32).len() > 0);
    }
}

/// Round-trip identity for the byte view: each representation's payload comes
/// back unchanged through `as_bytes`.
pub proof fn lemma_byte_view_identity(b: RawData)
    ensures
        b matches RawData::String(s) ==> b@ == encode_utf8(s@),
        b matches RawData::Bytes(x) ==> b@ == bytes_content(x),
        b matches RawData::ArcBytes(a) ==> b@ == a@,
{
}

/// Round-trip identity for a textual buffer: whatever `from_string` builds,
/// `as_bytes` hands back exactly the text's UTF-8 bytes.
pub proof fn lemma_round_trip_text(value: &str, b: RawData, r: &[u8])
    requires
        call_ensures(RawData::from_string, (value,), b),
        call_ensures(RawData::as_bytes, (&b,), r),
    ensures
        r@ == value.spec_bytes(),
{
}

/// Round-trip identity for an owned-bytes buffer: whatever `from_bytes`
/// wraps, `as_bytes` hands back exactly the handle's bytes.
pub proof fn lemma_round_trip_raw(x: Bytes, b: RawData, r: &[u8])
    requires
        call_ensures(RawData::from_bytes, (x,), b),
        call_ensures(RawData::as_bytes, (&b,), r),
    ensures
        r@ == bytes_content(x),
{
}

/// Round-trip identity for a shared buffer: whatever `from_arc_bytes` wraps,
/// `as_bytes` hands back exactly the shared vector's bytes.
pub proof fn lemma_round_trip_shared(data: Arc<Vec<u8>>, b: RawData, r: &[u8])
    requires
        call_ensures(RawData::from_arc_bytes, (data,), b),
        call_ensures(RawData::as_bytes, (&b,), r),
    ensures
        r@ == data@,
{
}

/// Round-trip identity for the compatibility constructor: the copied slice
/// comes back unchanged through `as_bytes`.
pub proof fn lemma_round_trip_shared_slice(data: Arc<[u8]>, b: RawData, r: &[u8])
    requires
        call_ensures(RawData::from_arc_slice, (data,), b),
        call_ensures(RawData::as_bytes, (&b,), r),
    ensures
        r@ == data@,
{
}

/// Display round trip: rendering a buffer built from text gives back exactly
/// that text.
pub proof fn lemma_display_round_trip(value: &str, b: RawData, shown: String)
    requires
        call_ensures(RawData::from_string, (value,), b),
        call_ensures(RawData::render, (&b,), shown),
    ensures
        shown@ == value@,
{
}

/// Emptiness and length agree: whatever `is_empty` and `len` return for the
/// same buffer, the former is true exactly when the latter is zero.
pub proof fn lemma_emptiness_length_agreement(b: RawData, e: bool, n: usize)
    requires
        call_ensures(RawData::is_empty, (&b,), e),
        call_ensures(RawData::len, (&b,), n),
    ensures
        e == (n == 0),
{
}

/// The interface for components that process `RawData` within a pipeline,
/// transforming it from one format to another (decoding an encoding layer,
/// unescaping, and the like).  Stages run in sequence: the output of one
/// becomes the input of the next, and a structured error aborts the sequence.
pub trait PipeProcessor {
    /// Transforms one buffer into another, or reports why it cannot.
    /// Malformed input is always a reportable error, never an abort.
    fn process(&self, data: RawData) -> WparseResult<RawData>;

    /// A stable label for diagnostics and pipeline tracing.
    fn name(&self) -> &'static str;
}

/// Result type for plugin parsing operations: on success, the parsed record
/// (whose shape the host defines) together with the residual buffer.
pub type DataResult<R> = Result<(R, RawData), WparseError>;

} // verus!
