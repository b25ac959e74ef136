//! The three-way outcome of one protocol operation, and the batch policy
//! that depends on it.

use vstd::prelude::*;

verus! {

/// Outcome of one request/response exchange with the service.
///
/// A caller driving a batch of inputs needs to distinguish "this particular
/// item was rejected, keep processing the rest" from "the service itself is
/// unreachable, stop the whole batch", so the three cases form one sum type
/// that every call site matches exhaustively.
#[derive(Debug, PartialEq)]
pub enum ResultOrOffline<T, E> {
    /// The service accepted the request; the payload is the parsed response.
    Success(T),
    /// The service answered but declined the request for a domain reason.
    Rejected(E),
    /// The transport could not complete the exchange at all.
    OfflineError,
}

/// Batch policy over one outcome: processing continues with the next input
/// item unless the service was unreachable.
pub open spec fn spec_continues_batch<T, E>(r: ResultOrOffline<T, E>) -> bool {
    !(r is OfflineError)
}

impl<T, E> ResultOrOffline<T, E> {
    /// True exactly when the service rejected the request for a domain reason.
    pub fn is_err(&self) -> (r: bool)
        ensures
            r == (self is Rejected),
    {
        match self {
            ResultOrOffline::Rejected(_) => true,
            _ => false,
        }
    }

    /// True exactly when the transport failed to complete the exchange.
    pub fn is_offline(&self) -> (r: bool)
        ensures
            r == (self is OfflineError),
    {
        match self {
            ResultOrOffline::OfflineError => true,
            _ => false,
        }
    }

    /// Extracts the success payload; callers must already know the operation
    /// succeeded.
    pub fn unwrap(self) -> (t: T)
        requires
            self is Success,
        ensures
            t == self->Success_0,
    {
        match self {
            ResultOrOffline::Success(t) => t,
            _ => unreached(),
        }
    }

    /// Batch policy: after this outcome, does processing continue with the
    /// next input item? A rejection concerns one item only; an unreachable
    /// service stops the whole batch.
    pub fn continues_batch(&self) -> (c: bool)
        ensures
            c == spec_continues_batch(*self),
    {
        match self {
            ResultOrOffline::OfflineError => false,
            _ => true,
        }
    }
}

/// An unreachable service stops the batch; every other outcome, a
/// rejection included, lets it go on.
pub proof fn lemma_batch_policy<T, E>(r: ResultOrOffline<T, E>)
    ensures
        spec_continues_batch(r) <==> !(r is OfflineError),
        r is Rejected ==> spec_continues_batch(r),
        r is Success ==> spec_continues_batch(r),
{
}

} // verus!
