//! What the service hands back for a request.
use vstd::prelude::*;

verus! {

/// The wrapped service's response future, passed through unmodified.
#[derive(Debug)]
pub struct ResponseFuture<T> {
    pub response: T,
}

} // verus!
