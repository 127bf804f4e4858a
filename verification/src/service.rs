//! The service abstraction of the pipeline: readiness first, then one call
//! per granted slot, each call answered by a future.

use std::future::Future;
use std::future::Ready;
use std::task::Context;
use std::task::Poll;
use vstd::future::FutureAdditionalSpecFns;
use vstd::prelude::*;

verus! {

/// `std::task::Context`, carried through to the innermost service so that it
/// can register the task's waker. Nothing is known of what it holds.
#[verifier::external_type_specification]
#[verifier::external_body]
pub struct ExContext<'a>(Context<'a>);

/// `std::task::Poll`, with its two variants `Ready` and `Pending` as std
/// declares them.
#[verifier::external_type_specification]
#[verifier::reject_recursive_types(T)]
pub struct ExPoll<T>(Poll<T>);

/// `std::future::Ready`, the future that `std::future::ready` makes.
#[verifier::external_type_specification]
#[verifier::external_body]
#[verifier::reject_recursive_types(T)]
pub struct ExReady<T>(Ready<T>);

/// `std::future::ready` makes a future that is complete from the start and
/// resolves to the value it was given.
pub assume_specification<T>[ std::future::ready::<T> ](t: T) -> (fut: Ready<T>)
    ensures
        fut@ == t,
;

/// An asynchronous request-to-response capability.
///
/// A caller polls for readiness until it is granted, then issues exactly one
/// call. Calling without readiness is a programming error, which the
/// precondition of `call` rules out. The three specification functions are the
/// service's model: when a call is permitted, what a readiness poll may do,
/// and what a call may do and resolve to.
pub trait InvocationService<Request> {
    type Response;

    /// Errors produced by the invocation.
    type Error;

    /// The future response value.
    type Future: Future<Output = Result<Self::Response, Self::Error>>;

    /// Whether a call may be issued in this state. A service that states
    /// nothing takes calls in every state.
    open spec fn is_ready(&self) -> bool {
        true
    }

    /// Whether a readiness poll in this state may leave the service as
    /// `after` and report `outcome`. A service that states nothing may do
    /// anything.
    open spec fn polled(&self, after: &Self, outcome: Poll<Result<(), Self::Error>>) -> bool {
        true
    }

    /// Whether a call with `req` in this state may leave the service as
    /// `after` and hand out a future that resolves to `outcome`. A service
    /// that states nothing may do anything.
    open spec fn called(
        &self,
        req: Request,
        after: &Self,
        outcome: Result<Self::Response, Self::Error>,
    ) -> bool {
        true
    }

    fn poll_ready(&mut self, cx: &mut Context<'_>) -> (r: Poll<Result<(), Self::Error>>)
        ensures
            old(self).polled(final(self), r),
            r matches Poll::Ready(Ok(_)) ==> final(self).is_ready(),
    ;

    fn call(&mut self, req: Request) -> (fut: Self::Future)
        requires
            old(self).is_ready(),
        ensures
            old(self).called(req, final(self), fut@),
    ;
}

} // verus!
