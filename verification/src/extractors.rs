//! The state of extracting a message from a request body.
//!
//! The body is collected, handed to the codec that the request's parse
//! strategy selects, and the codec's outcome is settled here: a decoded
//! message is kept until it is extracted; a failure becomes the text of the
//! error that the request is refused with.
use vstd::prelude::*;
use vstd::utf8::{decode_utf8, valid_utf8};
use crate::errors::{error_text, DeserializeError, ErrorView};
use crate::extensions::{codec_of, parse_error_kind_of, Codec, MessageParseStrategy, StrategyView};
use crate::text::{string_from_utf8, utf8_error_text};
use crate::types::Proto;

verus! {

broadcast use vstd::utf8::group_utf8_lib;

/// Why a codec produced no message.
#[derive(Debug)]
pub enum DecodeFailure {
    /// A plain-text body is not UTF-8; the text of the decoding error.
    InvalidUtf8(String),
    /// The codec rejected the body; the text of the codec's error.
    Rejected(String),
}

/// The text of the error with which a request is refused when its body,
/// parsed with `codec`, fails as `failure` says.
pub open spec fn refusal_text(codec: Codec, failure: DecodeFailure) -> Seq<char> {
    match failure {
        DecodeFailure::InvalidUtf8(e) => e@,
        DecodeFailure::Rejected(detail) => error_text(
            ErrorView { kind: parse_error_kind_of(codec), message: Some(detail@) },
        ),
    }
}

/// A request is refused with the text of what failed, whatever the codec: the
/// UTF-8 error's text, or the codec's own message.
pub proof fn law_refusal_text(codec: Codec, text: String)
    ensures
        refusal_text(codec, DecodeFailure::InvalidUtf8(text)) == text@,
        refusal_text(codec, DecodeFailure::Rejected(text)) == text@,
{
}

/// The text of a plain-text body.
///
/// `Ok` exactly when the body is valid UTF-8, with the characters it encodes;
/// otherwise the failure says that the body is not UTF-8, with the text of
/// std's UTF-8 error for these bytes.
pub fn decode_plaintext_body(bytes: Vec<u8>) -> (r: Result<String, DecodeFailure>)
    ensures
        r is Ok <==> valid_utf8(bytes@),
        r matches Ok(s) ==> s@ == decode_utf8(bytes@),
        r matches Err(e) ==> (e matches DecodeFailure::InvalidUtf8(text) && text@ == utf8_error_text(
            bytes@,
        )),
{
    match string_from_utf8(bytes) {
        Ok(s) => Ok(s),
        Err(text) => Err(DecodeFailure::InvalidUtf8(text)),
    }
}

/// A message being extracted from a request body with a parse strategy.
pub struct MessageFuture<M> {
    message: Option<M>,
    parse_strat: MessageParseStrategy,
}

impl<M> MessageFuture<M> {
    /// The message decoded so far, if any.
    pub closed spec fn decoded(&self) -> Option<M> {
        self.message
    }

    /// The strategy with which the body is parsed.
    pub closed spec fn strategy(&self) -> StrategyView {
        self.parse_strat@
    }

    /// Starts extracting with the given strategy; nothing is decoded yet.
    pub fn new(parse_strat: MessageParseStrategy) -> (r: Self)
        ensures
            r.decoded() is None,
            r.strategy() == parse_strat@,
    {
        MessageFuture { message: None, parse_strat }
    }

    /// The codec that the body is to be handed to.
    pub fn codec(&self) -> (r: Codec)
        ensures
            r == codec_of(self.strategy()),
    {
        self.parse_strat.0.codec()
    }

    /// Settles the codec's outcome.
    ///
    /// A decoded message is kept for extraction. A failure leaves the state
    /// as it was and gives the text of the error that the request is refused
    /// with: for a body that is not UTF-8, the decoding error's text; for a
    /// body that the codec rejects, the text of a deserialization error of
    /// the codec's kind with the codec's message.
    pub fn settle(&mut self, outcome: Result<M, DecodeFailure>) -> (r: Result<(), String>)
        ensures
            final(self).strategy() == old(self).strategy(),
            outcome matches Ok(m) ==> r is Ok && final(self).decoded() == Some(m),
            outcome matches Err(f) ==> final(self).decoded() == old(self).decoded(),
            outcome matches Err(f) ==> (r matches Err(text) && text@ == refusal_text(
                codec_of(old(self).strategy()),
                f,
            )),
    {
        match outcome {
            Ok(msg) => {
                self.message = Some(msg);
                Ok(())
            },
            Err(DecodeFailure::InvalidUtf8(e)) => Err(e),
            Err(DecodeFailure::Rejected(detail)) => {
                let kind = self.codec().parse_error_kind();
                let err = DeserializeError::new_with_message(kind, detail);
                Err(err.to_string())
            },
        }
    }

    /// Whether a message has been decoded.
    pub fn has_message(&self) -> (r: bool)
        ensures
            r == self.decoded() is Some,
    {
        self.message.is_some()
    }

    /// The decoded message, in its wrapper.
    pub fn extract(self) -> (r: Proto<M>)
        requires
            self.decoded() is Some,
        ensures
            r.0 == self.decoded().unwrap(),
    {
        Proto::from(self.message.unwrap())
    }
}

} // verus!
