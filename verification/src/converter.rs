//! From an HTTP request to an invocation, and the service that makes that
//! step for the service behind it.

use crate::http::HttpRequest;
use crate::invocation::InvocationView;
use crate::invocation::RpcInvocation;
use crate::service::InvocationService;
use std::task::Context;
use std::task::Poll;
use vstd::future::FutureAdditionalSpecFns;
use vstd::prelude::*;

verus! {

/// An HTTP request on its way to becoming an invocation.
#[derive(Debug)]
pub struct HttpRequestWrapper<B>(pub HttpRequest<B>);

impl<B> HttpRequestWrapper<B> {
    pub fn new(req: HttpRequest<B>) -> (wrapper: HttpRequestWrapper<B>)
        ensures
            wrapper.0 == req,
    {
        HttpRequestWrapper(req)
    }
}

/// The invocation that a request with the given URI turns into: the URI is
/// the method name, and everything else is empty or absent.
pub open spec fn invocation_of(uri: Seq<char>) -> InvocationView {
    InvocationView { method_name: uri, ..InvocationView::empty() }
}

impl<B> vstd::std_specs::convert::FromSpecImpl<HttpRequestWrapper<B>> for RpcInvocation {
    /// Two invocations with the same content are still two invocations, so
    /// the conversion is stated over the content, in the clause of `from`.
    open spec fn obeys_from_spec() -> bool {
        false
    }

    open spec fn from_spec(req: HttpRequestWrapper<B>) -> RpcInvocation {
        arbitrary()
    }
}

impl<B> From<HttpRequestWrapper<B>> for RpcInvocation {
    fn from(req: HttpRequestWrapper<B>) -> (invocation: RpcInvocation)
        ensures
            invocation@ == invocation_of(req.0.uri@),
    {
        RpcInvocation::builder().set_method_name(req.0.uri.as_str())
    }
}

/// The service that accepts HTTP requests for a service that accepts
/// invocations.
pub struct RpcInvocationService<S> {
    pub inner: S,
    pub invocation: RpcInvocation,
}

impl<S, B> InvocationService<HttpRequest<B>> for RpcInvocationService<S>
where
    S: InvocationService<RpcInvocation>,
{
    type Response = S::Response;

    type Error = S::Error;

    type Future = S::Future;

    open spec fn is_ready(&self) -> bool {
        self.inner.is_ready()
    }

    open spec fn polled(&self, after: &Self, outcome: Poll<Result<(), Self::Error>>) -> bool {
        &&& self.inner.polled(&after.inner, outcome)
        &&& after.invocation == self.invocation
    }

    /// The wrapped service is called with the invocation that the request
    /// turns into.
    open spec fn called(
        &self,
        req: HttpRequest<B>,
        after: &Self,
        outcome: Result<Self::Response, Self::Error>,
    ) -> bool {
        &&& after.invocation == self.invocation
        &&& exists|invocation: RpcInvocation|
            invocation@ == invocation_of(req.uri@) && #[trigger] self.inner.called(
                invocation,
                &after.inner,
                outcome,
            )
    }

    fn poll_ready(&mut self, cx: &mut Context<'_>) -> (r: Poll<Result<(), Self::Error>>) {
        self.inner.poll_ready(cx)
    }

    fn call(&mut self, request: HttpRequest<B>) -> (fut: Self::Future) {
        let rpc_invocation = RpcInvocation::from(HttpRequestWrapper::new(request));
        let fut = self.inner.call(rpc_invocation);
        assert(old(self).inner.called(rpc_invocation, &self.inner, fut@));
        fut
    }
}

} // verus!
