//! Transport wrapper for trace-context propagation.
//!
//! [`OtelTransport`] wraps any inner transport so that the surrounding SDK
//! can inject a `traceparent` header on each request it sends through it;
//! the wrapper itself only holds and hands back the inner value.

use vstd::prelude::*;

verus! {

/// An HTTP transport wrapped for distributed-trace header injection.
pub struct OtelTransport<T> {
    inner: T,
}

impl<T> OtelTransport<T> {
    /// The wrapped transport.
    pub closed spec fn spec_inner(self) -> T {
        self.inner
    }

    /// Wrap a transport.
    pub fn new(inner: T) -> (r: OtelTransport<T>)
        ensures
            r.spec_inner() == inner,
    {
        OtelTransport { inner }
    }

    /// Borrow the wrapped transport.
    pub fn inner(&self) -> (r: &T)
        ensures
            *r == self.spec_inner(),
    {
        &self.inner
    }
}

} // verus!
