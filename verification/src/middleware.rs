//! The middleware that decorates a service by converting incoming and
//! outgoing protobuf messages.
use vstd::prelude::*;
use crate::service::{Config, ProtobufService};

verus! {

/// Decorates a service by converting incoming and outgoing protobuf
/// messages.
pub struct ProtobufMiddleware {
    config: Config,
}

impl ProtobufMiddleware {
    /// The configuration that wrapped services get.
    pub closed spec fn configuration(&self) -> Config {
        self.config
    }

    /// A middleware that allows JSON in responses if `send_json` and in
    /// requests if `receive_json`.
    pub fn new(send_json: bool, receive_json: bool) -> (r: ProtobufMiddleware)
        ensures
            r.configuration() == (Config { receive_json, send_json }),
    {
        ProtobufMiddleware { config: Config { send_json, receive_json } }
    }

    /// Wraps `service` in a [`ProtobufService`] with this configuration.
    pub fn wrap<S>(&self, service: S) -> (r: ProtobufService<S>)
        ensures
            r.inner_service() == service,
            r.configuration() == self.configuration(),
    {
        ProtobufService::new(service, self.config)
    }

    /// The configuration that wrapped services get.
    pub fn config(&self) -> (r: Config)
        ensures
            r == self.configuration(),
    {
        self.config
    }
}

impl Default for ProtobufMiddleware {
    /// JSON allowed both ways.
    fn default() -> (r: Self)
        ensures
            r.configuration() == (Config { receive_json: true, send_json: true }),
    {
        ProtobufMiddleware::new(true, true)
    }
}

} // verus!
