//! The body of a response: a buffer of encoded bytes that the framework
//! reads as a stream of one chunk.
use vstd::prelude::*;
use crate::extensions::{serialization_error_title_of, Codec};

verus! {

#[verifier::external_type_specification]
#[verifier::external_body]
pub struct ExBytes(bytes::Bytes);

/// The bytes that a `bytes::Bytes` buffer holds.
pub uninterp spec fn bytes_contents(b: bytes::Bytes) -> Seq<u8>;

/// bytes' `Bytes::new`: a new buffer, which holds nothing.
#[verifier::external_body]
fn bytes_new() -> (r: bytes::Bytes)
    ensures
        bytes_contents(r) == Seq::<u8>::empty(),
{
    bytes::Bytes::new()
}

/// bytes' `Bytes::is_empty`: whether the buffer holds no bytes.
#[verifier::external_body]
fn bytes_is_empty(b: &bytes::Bytes) -> (r: bool)
    ensures
        r == (bytes_contents(*b).len() == 0),
{
    b.is_empty()
}

/// An encoded message, to be streamed as a response body.
#[derive(Debug)]
pub struct BytesWrapper(bytes::Bytes);

impl BytesWrapper {
    /// The bytes still to be streamed.
    pub closed spec fn contents(&self) -> Seq<u8> {
        bytes_contents(self.0)
    }

    /// The next chunk of the stream: all the bytes that are left, once; then
    /// nothing. After the call no bytes are left.
    pub fn next_chunk(&mut self) -> (r: Option<bytes::Bytes>)
        ensures
            old(self).contents().len() == 0 <==> r is None,
            r matches Some(b) ==> bytes_contents(b) == old(self).contents(),
            final(self).contents().len() == 0,
    {
        if bytes_is_empty(&self.0) {
            return None;
        }
        let mut taken = bytes_new();
        core::mem::swap(&mut taken, &mut self.0);
        Some(taken)
    }
}

impl core::ops::Deref for BytesWrapper {
    type Target = bytes::Bytes;

    fn deref(&self) -> (r: &bytes::Bytes)
        ensures
            bytes_contents(*r) == self.contents(),
    {
        &self.0
    }
}

impl From<bytes::Bytes> for BytesWrapper {
    fn from(b: bytes::Bytes) -> (r: Self)
        ensures
            r.contents() == bytes_contents(b),
    {
        BytesWrapper(b)
    }
}

impl vstd::std_specs::convert::FromSpecImpl<bytes::Bytes> for BytesWrapper {
    open spec fn obeys_from_spec() -> bool {
        true
    }

    closed spec fn from_spec(b: bytes::Bytes) -> Self {
        BytesWrapper(b)
    }
}

/// Why a response could not be made: the text of the failing call, the
/// error's title and the HTTP status to answer with.
#[derive(Debug)]
pub struct EncodeFailure {
    pub detail: String,
    pub title: &'static str,
    pub status: u16,
}

/// The status with which a response that cannot be made is answered.
pub open spec fn encode_failure_status() -> u16 {
    500
}

/// A response that cannot be made is answered with status 500 (internal
/// server error).
pub proof fn law_encode_failure_status()
    ensures
        encode_failure_status() == 500,
{
}

/// The outcome of encoding a message with `codec`: the bytes where the
/// serializer produced them; otherwise a failure with the serializer's text,
/// the codec's title and status 500.
pub fn encoding_outcome(codec: Codec, encoded: Result<Vec<u8>, String>) -> (r: Result<
    Vec<u8>,
    EncodeFailure,
>)
    ensures
        encoded matches Ok(b) ==> (r matches Ok(v) && v@ == b@),
        encoded matches Err(d) ==> (r matches Err(f) && f.detail@ == d@ && f.title@
            == serialization_error_title_of(codec) && f.status == encode_failure_status()),
{
    match encoded {
        Ok(bytes) => Ok(bytes),
        Err(detail) => Err(
            EncodeFailure { detail, title: codec.serialization_error_title(), status: 500 },
        ),
    }
}

/// The failure with which a response is refused when the response itself
/// cannot be built: the builder's text, the title `Response Builder Error`
/// and status 500.
pub fn response_builder_failure(detail: String) -> (r: EncodeFailure)
    ensures
        r.detail@ == detail@,
        r.title@ == "Response Builder Error"@,
        r.status == encode_failure_status(),
{
    EncodeFailure { detail, title: "Response Builder Error", status: 500 }
}

} // verus!
