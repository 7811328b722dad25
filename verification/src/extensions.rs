//! The strategies that the middleware records on a request for the extractor
//! (how to parse the body) and for the response (how to encode a message).
use vstd::prelude::*;
use crate::errors::DeserializeErrorKind;

verus! {

/// How a message is represented on the wire.
#[derive(Debug)]
pub enum MessageStrategy {
    /// A protobuf message, with the name that the header carried.
    NamedProto(String),
    /// A protobuf message.
    Proto,
    /// Protobuf-compliant JSON.
    Json,
    /// Plain text.
    Plaintext,
}

/// The mathematical model of a [`MessageStrategy`]: the name is a sequence of
/// characters.
pub enum StrategyView {
    NamedProto(Seq<char>),
    Proto,
    Json,
    Plaintext,
}

impl View for MessageStrategy {
    type V = StrategyView;

    open spec fn view(&self) -> StrategyView {
        match self {
            MessageStrategy::NamedProto(name) => StrategyView::NamedProto(name@),
            MessageStrategy::Proto => StrategyView::Proto,
            MessageStrategy::Json => StrategyView::Json,
            MessageStrategy::Plaintext => StrategyView::Plaintext,
        }
    }
}

/// The codec that a strategy selects.
#[derive(Clone, Copy, Debug, PartialEq, Eq, Structural)]
pub enum Codec {
    Protobuf,
    Json,
    Plaintext,
}

/// The codec that a strategy (taken by its model) selects: both protobuf
/// strategies use the protobuf codec.
pub open spec fn codec_of(s: StrategyView) -> Codec {
    match s {
        StrategyView::NamedProto(_) => Codec::Protobuf,
        StrategyView::Proto => Codec::Protobuf,
        StrategyView::Json => Codec::Json,
        StrategyView::Plaintext => Codec::Plaintext,
    }
}

/// The `Content-Type` that goes with a strategy.
pub open spec fn content_type_of(s: StrategyView) -> Seq<char> {
    match codec_of(s) {
        Codec::Protobuf => "application/protobuf"@,
        Codec::Json => "application/json"@,
        Codec::Plaintext => "text/plain"@,
    }
}

/// The kind of error with which a body that a codec rejects is reported.
pub open spec fn parse_error_kind_of(c: Codec) -> DeserializeErrorKind {
    match c {
        Codec::Protobuf => DeserializeErrorKind::ErrorParsingProtobuf,
        Codec::Json => DeserializeErrorKind::ErrorParsingJson,
        Codec::Plaintext => DeserializeErrorKind::ErrorParsingPlaintext,
    }
}

/// The title of the error with which a message that a codec fails to encode
/// is answered.
pub open spec fn serialization_error_title_of(c: Codec) -> Seq<char> {
    match c {
        Codec::Protobuf => "Serialization Error: Insufficient Capacity"@,
        Codec::Json => "Serialization Error: serde_json"@,
        Codec::Plaintext => "Serialization Error: serde_plain"@,
    }
}

/// A body that a codec rejects is reported as an error of that codec's own
/// kind, and a failed encoding carries that codec's title.
pub proof fn law_codec_errors()
    ensures
        parse_error_kind_of(Codec::Protobuf) == DeserializeErrorKind::ErrorParsingProtobuf,
        parse_error_kind_of(Codec::Json) == DeserializeErrorKind::ErrorParsingJson,
        parse_error_kind_of(Codec::Plaintext) == DeserializeErrorKind::ErrorParsingPlaintext,
        serialization_error_title_of(Codec::Protobuf)
            == "Serialization Error: Insufficient Capacity"@,
        serialization_error_title_of(Codec::Json) == "Serialization Error: serde_json"@,
        serialization_error_title_of(Codec::Plaintext) == "Serialization Error: serde_plain"@,
{
}

impl Codec {
    /// The kind of error with which a body that this codec rejects is
    /// reported.
    pub fn parse_error_kind(&self) -> (r: DeserializeErrorKind)
        ensures
            r == parse_error_kind_of(*self),
    {
        match self {
            Codec::Protobuf => DeserializeErrorKind::ErrorParsingProtobuf,
            Codec::Json => DeserializeErrorKind::ErrorParsingJson,
            Codec::Plaintext => DeserializeErrorKind::ErrorParsingPlaintext,
        }
    }

    /// The title of the error with which a message that this codec fails to
    /// encode is answered.
    pub fn serialization_error_title(&self) -> (r: &'static str)
        ensures
            r@ == serialization_error_title_of(*self),
    {
        match self {
            Codec::Protobuf => "Serialization Error: Insufficient Capacity",
            Codec::Json => "Serialization Error: serde_json",
            Codec::Plaintext => "Serialization Error: serde_plain",
        }
    }
}

/// Both protobuf strategies, whatever the name, hand messages to the
/// protobuf codec and send them as `application/protobuf`; JSON goes to the
/// JSON codec as `application/json`, plain text to the plain-text codec as
/// `text/plain`.
pub proof fn law_codec_and_content_type(name: Seq<char>)
    ensures
        codec_of(StrategyView::NamedProto(name)) == Codec::Protobuf,
        codec_of(StrategyView::Proto) == Codec::Protobuf,
        codec_of(StrategyView::Json) == Codec::Json,
        codec_of(StrategyView::Plaintext) == Codec::Plaintext,
        content_type_of(StrategyView::NamedProto(name)) == "application/protobuf"@,
        content_type_of(StrategyView::Proto) == "application/protobuf"@,
        content_type_of(StrategyView::Json) == "application/json"@,
        content_type_of(StrategyView::Plaintext) == "text/plain"@,
{
}

impl Clone for MessageStrategy {
    fn clone(&self) -> (r: Self)
        ensures
            r@ == self@,
    {
        match self {
            MessageStrategy::NamedProto(name) => MessageStrategy::NamedProto(name.clone()),
            MessageStrategy::Proto => MessageStrategy::Proto,
            MessageStrategy::Json => MessageStrategy::Json,
            MessageStrategy::Plaintext => MessageStrategy::Plaintext,
        }
    }
}

impl MessageStrategy {
    /// The `Content-Type` of a message sent with this strategy.
    pub fn content_type(&self) -> (r: &'static str)
        ensures
            r@ == content_type_of(self@),
    {
        match self {
            MessageStrategy::NamedProto(_) | MessageStrategy::Proto => "application/protobuf",
            MessageStrategy::Json => "application/json",
            MessageStrategy::Plaintext => "text/plain",
        }
    }

    /// The codec that this strategy selects.
    pub fn codec(&self) -> (r: Codec)
        ensures
            r == codec_of(self@),
    {
        match self {
            MessageStrategy::NamedProto(_) | MessageStrategy::Proto => Codec::Protobuf,
            MessageStrategy::Json => Codec::Json,
            MessageStrategy::Plaintext => Codec::Plaintext,
        }
    }
}


/// The strategy that the extractor uses to parse an incoming body.
///
/// Request extensions are keyed by type, so the two strategies are distinct
/// newtypes around [`MessageStrategy`].
#[derive(Debug)]
pub struct MessageParseStrategy(pub MessageStrategy);

/// The strategy that the response uses to encode an outgoing message.
#[derive(Debug)]
pub struct MessageEncodeStrategy(pub MessageStrategy);

impl View for MessageParseStrategy {
    type V = StrategyView;

    open spec fn view(&self) -> StrategyView {
        self.0@
    }
}

impl View for MessageEncodeStrategy {
    type V = StrategyView;

    open spec fn view(&self) -> StrategyView {
        self.0@
    }
}

impl Clone for MessageParseStrategy {
    fn clone(&self) -> (r: Self)
        ensures
            r@ == self@,
    {
        MessageParseStrategy(self.0.clone())
    }
}

impl Clone for MessageEncodeStrategy {
    fn clone(&self) -> (r: Self)
        ensures
            r@ == self@,
    {
        MessageEncodeStrategy(self.0.clone())
    }
}

impl core::ops::Deref for MessageParseStrategy {
    type Target = MessageStrategy;

    fn deref(&self) -> (r: &MessageStrategy)
        ensures
            r == &self.0,
    {
        &self.0
    }
}

impl core::ops::Deref for MessageEncodeStrategy {
    type Target = MessageStrategy;

    fn deref(&self) -> (r: &MessageStrategy)
        ensures
            r == &self.0,
    {
        &self.0
    }
}

/// A request that carries no parse strategy is parsed as plain text.
impl Default for MessageParseStrategy {
    fn default() -> (r: Self)
        ensures
            r@ == StrategyView::Plaintext,
    {
        MessageParseStrategy(MessageStrategy::Plaintext)
    }
}

/// A request that carries no encode strategy is answered in plain text.
impl Default for MessageEncodeStrategy {
    fn default() -> (r: Self)
        ensures
            r@ == StrategyView::Plaintext,
    {
        MessageEncodeStrategy(MessageStrategy::Plaintext)
    }
}

impl From<MessageStrategy> for MessageParseStrategy {
    fn from(strat: MessageStrategy) -> (r: Self) {
        MessageParseStrategy(strat)
    }
}

impl vstd::std_specs::convert::FromSpecImpl<MessageStrategy> for MessageParseStrategy {
    open spec fn obeys_from_spec() -> bool {
        true
    }

    open spec fn from_spec(strat: MessageStrategy) -> Self {
        MessageParseStrategy(strat)
    }
}

impl From<MessageStrategy> for MessageEncodeStrategy {
    fn from(strat: MessageStrategy) -> (r: Self) {
        MessageEncodeStrategy(strat)
    }
}

impl vstd::std_specs::convert::FromSpecImpl<MessageStrategy> for MessageEncodeStrategy {
    open spec fn obeys_from_spec() -> bool {
        true
    }

    open spec fn from_spec(strat: MessageStrategy) -> Self {
        MessageEncodeStrategy(strat)
    }
}

} // verus!
