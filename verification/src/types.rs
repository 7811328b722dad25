//! The wrapper in which a protobuf message travels through the framework.
use vstd::prelude::*;

verus! {

/// A wrapper for a protobuf message type.
///
/// Endpoints take and return `Proto<M>` in place of `M` so that the
/// framework's traits can be implemented for it. `From<M>`, `Deref` and
/// `AsRef` make it stand in for an `M` nearly everywhere.
pub struct Proto<M>(pub M);

impl<M> Proto<M> {
    /// Wraps `message`.
    pub fn new(message: M) -> (r: Self)
        ensures
            r.0 == message,
    {
        Proto(message)
    }

    /// Takes the message out of the wrapper.
    pub fn move_inner(self) -> (r: M)
        ensures
            r == self.0,
    {
        self.0
    }

    /// The wrapped message.
    pub fn get(&self) -> (r: &M)
        ensures
            *r == self.0,
    {
        &self.0
    }
}

impl<M: Default> Default for Proto<M> {
    /// Wraps `M`'s default message.
    fn default() -> (r: Self)
        ensures
            call_ensures(M::default, (), r.0),
    {
        Proto::new(M::default())
    }
}

impl<M> From<M> for Proto<M> {
    fn from(message: M) -> (r: Self) {
        Proto::new(message)
    }
}

impl<M> vstd::std_specs::convert::FromSpecImpl<M> for Proto<M> {
    open spec fn obeys_from_spec() -> bool {
        true
    }

    open spec fn from_spec(message: M) -> Self {
        Proto(message)
    }
}

impl<M> core::ops::Deref for Proto<M> {
    type Target = M;

    fn deref(&self) -> (r: &M)
        ensures
            *r == self.0,
    {
        &self.0
    }
}

impl<M> AsRef<M> for Proto<M> {
    fn as_ref(&self) -> (r: &M)
        ensures
            *r == self.0,
    {
        &self.0
    }
}

impl<M: Clone> Clone for Proto<M> {
    /// Wraps a clone of the message.
    fn clone(&self) -> (r: Self)
        ensures
            cloned(self.0, r.0),
    {
        Proto(self.0.clone())
    }
}

/// A request extracted field by field (a sample of the framework's
/// extraction, with fields of several kinds).
pub struct Screamer {
    int: u32,
    juk: u64,
    lulz: String,
    wjuiw: Result<String, String>,
}

} // verus!
