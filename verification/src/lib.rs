//! Middleware and friends that help deal with protobuf messages in tower-web.
//!
//! The verified core of the crate: it decides, from a request's headers, how
//! an incoming message body is to be parsed and how an outgoing message is to
//! be encoded, and it keeps the state that the extractor and the response
//! stream go through.
pub mod common;
pub mod errors;
pub mod extensions;
pub mod extractors;
pub mod headers;
pub mod middleware;
pub mod response;
pub mod service;
pub mod text;
pub mod types;

pub use common::ResponseFuture;
pub use errors::{DeserializeError, DeserializeErrorKind};
pub use extensions::{Codec, MessageEncodeStrategy, MessageParseStrategy, MessageStrategy, StrategyView};
pub use extractors::{decode_plaintext_body, DecodeFailure, MessageFuture};
pub use headers::parse_headers;
pub use middleware::ProtobufMiddleware;
pub use response::{encoding_outcome, response_builder_failure, BytesWrapper, EncodeFailure};
pub use service::{Config, ProtobufService};
pub use types::{Proto, Screamer};
