//! The service that the protobuf middleware wraps around another: it reads a
//! request's `Content-Type` and `Accept` headers and records, for the
//! extractor and the response, how the message is to be parsed and encoded.
use vstd::prelude::*;
use crate::extensions::{MessageEncodeStrategy, MessageParseStrategy};
use crate::headers::{parse_headers, parse_headers_spec};

verus! {

/// Configuration options for a [`ProtobufService`].
#[derive(Clone, Copy, Debug, PartialEq, Eq, Structural)]
pub struct Config {
    /// Allow incoming messages to be sent as protobuf-compliant JSON.
    pub receive_json: bool,
    /// Allow outgoing messages to be sent as protobuf-compliant JSON.
    pub send_json: bool,
}

/// Decorates another service by telling the extractor how to parse incoming
/// messages and the response how to encode outgoing ones.
///
/// Messages can be sent as JSON in either direction where the configuration
/// allows it. The `Content-Type` header decides how an incoming message is
/// parsed, the `Accept` header how an outgoing one is encoded; where both
/// JSON and protobuf are asked for, protobuf is preferred.
pub struct ProtobufService<S> {
    inner: S,
    config: Config,
}

impl<S> ProtobufService<S> {
    /// The wrapped service.
    pub closed spec fn inner_service(&self) -> S {
        self.inner
    }

    /// The configuration.
    pub closed spec fn configuration(&self) -> Config {
        self.config
    }

    /// Wraps `inner` with the given configuration.
    pub fn new(inner: S, config: Config) -> (r: Self)
        ensures
            r.inner_service() == inner,
            r.configuration() == config,
    {
        ProtobufService { inner, config }
    }

    /// The strategies recorded on a request: how to parse its body, from the
    /// values of its `Content-Type` header (JSON only if `receive_json`), and
    /// how to encode the response, from the values of its `Accept` header
    /// (JSON only if `send_json`).
    pub fn strategies_for(&self, content_type: &Vec<Vec<u8>>, accept: &Vec<Vec<u8>>) -> (r: (
        MessageParseStrategy,
        MessageEncodeStrategy,
    ))
        ensures
            r.0@ == parse_headers_spec(content_type.deep_view(), self.configuration().receive_json),
            r.1@ == parse_headers_spec(accept.deep_view(), self.configuration().send_json),
    {
        let mps = MessageParseStrategy(parse_headers(content_type, self.config.receive_json));
        let mes = MessageEncodeStrategy(parse_headers(accept, self.config.send_json));
        (mps, mes)
    }

    /// The wrapped service, to pass a request on to.
    pub fn inner_mut(&mut self) -> (r: &mut S)
        ensures
            *r == old(self).inner_service(),
            final(self).inner_service() == *final(r),
            final(self).configuration() == old(self).configuration(),
    {
        &mut self.inner
    }

    /// The configuration.
    pub fn config(&self) -> (r: Config)
        ensures
            r == self.configuration(),
    {
        self.config
    }
}

} // verus!
