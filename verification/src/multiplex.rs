//! One listening endpoint for two protocols: each request is classified by
//! its head and handed to the REST stack or to the gRPC stack.

use crate::http::starts_with;
use crate::http::Headers;
use crate::http::HttpRequest;
use crate::http::HttpResponse;
use crate::http::HttpVersion;
use crate::service::InvocationService;
use futures::future::Either;
use std::convert::Infallible;
use std::future::Future;
use std::future::Ready;
use std::task::Context;
use std::task::Poll;
use vstd::future::FutureAdditionalSpecFns;
use vstd::prelude::*;
use vstd::string::StringSliceAdditionalSpecFns;

verus! {

/// `futures::future::Either`, the future that is one of two futures with the
/// same output. Built only through `left_future` and `right_future`.
#[verifier::external_type_specification]
#[verifier::external_body]
#[verifier::reject_recursive_types(A)]
#[verifier::reject_recursive_types(B)]
pub struct ExEither<A, B>(Either<A, B>);

/// `Either::Left`: polling the result polls `fut`, so it resolves to what
/// `fut` resolves to.
#[verifier::external_body]
fn left_future<A, B>(fut: A) -> (either: Either<A, B>)
    where
        A: Future,
        B: Future<Output = A::Output>,
    ensures
        either@ == fut@,
{
    Either::Left(fut)
}

/// `Either::Right`: polling the result polls `fut`, so it resolves to what
/// `fut` resolves to.
#[verifier::external_body]
fn right_future<A, B>(fut: B) -> (either: Either<A, B>)
    where
        A: Future,
        B: Future<Output = A::Output>,
    ensures
        either@ == fut@,
{
    Either::Right(fut)
}

/// The stack that serves a request.
#[derive(Clone, Copy, PartialEq, Eq, Structural, Debug)]
pub enum Route {
    Rest,
    Grpc,
}

/// Where the multiplexer stands between readiness and dispatch.
#[derive(Clone, Copy, PartialEq, Eq, Structural, Debug)]
pub enum MultiplexState {
    /// No request is with a stack on this instance's account.
    Ready,
    /// The last call went to this stack, and the multiplexer has not come
    /// back to rest since.
    Dispatching(Route),
}

/// What moves the multiplexer from one state to the next.
#[derive(Clone, Copy, PartialEq, Eq, Structural, Debug)]
pub enum MultiplexEvent {
    /// A call was handed to this stack.
    Dispatched(Route),
    /// The dispatch is over: its future has resolved, or both stacks have
    /// granted readiness again.
    Settled,
}

impl MultiplexState {
    /// The state after `event`: a dispatch leads to the dispatching state
    /// of its stack, and the end of a dispatch leads back to rest, from
    /// whatever state.
    pub open spec fn next(self, event: MultiplexEvent) -> MultiplexState {
        match event {
            MultiplexEvent::Dispatched(route) => MultiplexState::Dispatching(route),
            MultiplexEvent::Settled => MultiplexState::Ready,
        }
    }

    /// The state after `event`.
    pub fn after(self, event: MultiplexEvent) -> (state: MultiplexState)
        ensures
            state == self.next(event),
    {
        match event {
            MultiplexEvent::Dispatched(route) => MultiplexState::Dispatching(route),
            MultiplexEvent::Settled => MultiplexState::Ready,
        }
    }
}

/// The key of the header that names the payload's media type.
pub open spec fn content_type_key() -> Seq<u8> {
    Headers::key_of("content-type"@)
}

/// The bytes with which the media type of every gRPC payload begins.
pub open spec fn grpc_media_type() -> Seq<u8> {
    "application/grpc".spec_bytes()
}

/// The signature of a gRPC request: HTTP/2, and a content type that begins
/// with the gRPC media type.
pub open spec fn is_grpc(version: HttpVersion, headers: Map<Seq<u8>, Seq<u8>>) -> bool {
    &&& version == HttpVersion::H2
    &&& headers.contains_key(content_type_key())
    &&& grpc_media_type().len() <= headers[content_type_key()].len()
    &&& headers[content_type_key()].subrange(0, grpc_media_type().len() as int)
        == grpc_media_type()
}

/// The stack that a request head selects: gRPC for the gRPC signature, REST
/// for everything else.
pub open spec fn route_of(version: HttpVersion, headers: Map<Seq<u8>, Seq<u8>>) -> Route {
    if is_grpc(version, headers) {
        Route::Grpc
    } else {
        Route::Rest
    }
}

/// Whether the request carries the gRPC signature. Reads the head only.
pub fn is_grpc_request<B>(request: &HttpRequest<B>) -> (grpc: bool)
    ensures
        grpc == is_grpc(request.version, request.headers@),
{
    if request.version != HttpVersion::H2 {
        return false;
    }
    match request.headers.get("content-type") {
        Some(value) => starts_with(value.as_slice(), "application/grpc".as_bytes()),
        None => false,
    }
}

/// The stack that serves `request`. Reads the head only.
pub fn classify<B>(request: &HttpRequest<B>) -> (route: Route)
    ensures
        route == route_of(request.version, request.headers@),
{
    if is_grpc_request(request) {
        Route::Grpc
    } else {
        Route::Rest
    }
}

/// A service over two stacks that answer the same kind of request with the
/// same kinds of response and error.
pub struct MultiplexService<A, B> {
    pub rest: A,
    pub grpc: B,
    pub state: MultiplexState,
}

impl<A, B> MultiplexService<A, B> {
    /// Takes ownership of both stacks. Neither has been polled yet.
    pub fn new(rest: A, grpc: B) -> (service: Self)
        ensures
            service.rest == rest,
            service.grpc == grpc,
            service.state == MultiplexState::Ready,
    {
        MultiplexService { rest, grpc, state: MultiplexState::Ready }
    }

    pub fn state(&self) -> (state: MultiplexState)
        ensures
            state == self.state,
    {
        self.state
    }
}

impl<A, B, Body> InvocationService<HttpRequest<Body>> for MultiplexService<A, B>
where
    A: InvocationService<HttpRequest<Body>>,
    B: InvocationService<HttpRequest<Body>, Response = A::Response, Error = A::Error>,
{
    type Response = A::Response;

    type Error = A::Error;

    type Future = Either<A::Future, B::Future>;

    /// Ready when no dispatch is outstanding and both stacks are ready.
    open spec fn is_ready(&self) -> bool {
        &&& self.state == MultiplexState::Ready
        &&& self.rest.is_ready()
        &&& self.grpc.is_ready()
    }

    /// Readiness is granted when both stacks grant it, REST asked first. The
    /// first stack that does not grant it decides the outcome, and a stack
    /// that was not asked is left as it was.
    open spec fn polled(&self, after: &Self, outcome: Poll<Result<(), Self::Error>>) -> bool {
        if outcome matches Poll::Ready(Ok(_)) {
            &&& self.rest.polled(&after.rest, Poll::Ready(Ok(())))
            &&& self.grpc.polled(&after.grpc, Poll::Ready(Ok(())))
            &&& after.state == MultiplexState::Ready
        } else {
            &&& after.state == self.state
            &&& {
                ||| self.rest.polled(&after.rest, outcome) && after.grpc == self.grpc
                ||| self.rest.polled(&after.rest, Poll::Ready(Ok(()))) && self.grpc.polled(
                    &after.grpc,
                    outcome,
                )
            }
        }
    }

    /// The call goes to the stack that the request's head selects, and to no
    /// other.
    open spec fn called(
        &self,
        req: HttpRequest<Body>,
        after: &Self,
        outcome: Result<Self::Response, Self::Error>,
    ) -> bool {
        match route_of(req.version, req.headers@) {
            Route::Grpc => {
                &&& self.grpc.called(req, &after.grpc, outcome)
                &&& after.rest == self.rest
                &&& after.state == MultiplexState::Dispatching(Route::Grpc)
            },
            Route::Rest => {
                &&& self.rest.called(req, &after.rest, outcome)
                &&& after.grpc == self.grpc
                &&& after.state == MultiplexState::Dispatching(Route::Rest)
            },
        }
    }

    fn poll_ready(&mut self, cx: &mut Context<'_>) -> (r: Poll<Result<(), Self::Error>>) {
        match self.rest.poll_ready(cx) {
            Poll::Ready(Ok(_granted)) => {},
            refused => {
                return refused;
            },
        }
        match self.grpc.poll_ready(cx) {
            Poll::Ready(Ok(_granted)) => {},
            refused => {
                return refused;
            },
        }
        self.state = self.state.after(MultiplexEvent::Settled);
        Poll::Ready(Ok(()))
    }

    fn call(&mut self, req: HttpRequest<Body>) -> (fut: Self::Future) {
        match classify(&req) {
            Route::Grpc => {
                self.state = self.state.after(MultiplexEvent::Dispatched(Route::Grpc));
                right_future(self.grpc.call(req))
            },
            Route::Rest => {
                self.state = self.state.after(MultiplexEvent::Dispatched(Route::Rest));
                left_future(self.rest.call(req))
            },
        }
    }
}

/// The body of the REST root resource.
pub fn web_root() -> (body: &'static str)
    ensures
        body@ == "Hello, World!"@,
{
    "Hello, World!"
}

/// The REST handler at the root: it answers every request at once with
/// status 200, no headers and the body of `web_root`.
#[derive(Clone, Copy, Debug)]
pub struct WebRoot;

impl<Body> InvocationService<HttpRequest<Body>> for WebRoot {
    type Response = HttpResponse<String>;

    type Error = Infallible;

    type Future = Ready<Result<HttpResponse<String>, Infallible>>;

    open spec fn is_ready(&self) -> bool {
        true
    }

    open spec fn polled(&self, after: &Self, outcome: Poll<Result<(), Infallible>>) -> bool {
        outcome == Poll::Ready(Ok::<(), Infallible>(()))
    }

    open spec fn called(
        &self,
        req: HttpRequest<Body>,
        after: &Self,
        outcome: Result<HttpResponse<String>, Infallible>,
    ) -> bool {
        &&& outcome matches Ok(response)
        &&& response.status == 200
        &&& response.headers@ == Map::<Seq<u8>, Seq<u8>>::empty()
        &&& response.body@ == "Hello, World!"@
    }

    fn poll_ready(&mut self, cx: &mut Context<'_>) -> (r: Poll<Result<(), Infallible>>) {
        Poll::Ready(Ok(()))
    }

    fn call(&mut self, req: HttpRequest<Body>) -> (fut: Self::Future) {
        let response = HttpResponse {
            status: 200,
            headers: Headers::new(),
            body: web_root().to_owned(),
        };
        std::future::ready(Ok(response))
    }
}

/// The multiplexer is at rest after every dispatch that is over, and while
/// a dispatch is on, its state names the stack that the call went to.
pub proof fn lemma_state_machine(state: MultiplexState, route: Route)
    ensures
        state.next(MultiplexEvent::Settled) == MultiplexState::Ready,
        state.next(MultiplexEvent::Dispatched(route)) == MultiplexState::Dispatching(route),
        state.next(MultiplexEvent::Dispatched(route)).next(MultiplexEvent::Settled)
            == MultiplexState::Ready,
{
}

/// The multiplexer makes no error of its own: an error that a poll reports
/// is the error that one of the two stacks reported, and readiness is
/// reported only where both stacks reported it.
pub proof fn lemma_poll_outcome_is_a_stack_outcome<A, B, Body>(
    before: MultiplexService<A, B>,
    after: MultiplexService<A, B>,
    outcome: Poll<Result<(), A::Error>>,
)
    where
        A: InvocationService<HttpRequest<Body>>,
        B: InvocationService<HttpRequest<Body>, Response = A::Response, Error = A::Error>,
    requires
        InvocationService::<HttpRequest<Body>>::polled(&before, &after, outcome),
    ensures
        outcome matches Poll::Ready(Ok(_)) ==> before.rest.polled(&after.rest, outcome)
            && before.grpc.polled(&after.grpc, outcome),
        !(outcome matches Poll::Ready(Ok(_))) ==> before.rest.polled(&after.rest, outcome)
            || before.grpc.polled(&after.grpc, outcome),
{
    match outcome {
        Poll::Ready(Ok(granted)) => {
            assert(granted == ());
        },
        _ => {},
    }
}

/// The stack that a call on `service` goes to answers it: `outcome` is
/// what that stack resolves to for `req`, and `after` holds it as the call
/// left it.
pub open spec fn answered_by_own_stack<A, B, Body>(
    service: MultiplexService<A, B>,
    req: HttpRequest<Body>,
    after: MultiplexService<A, B>,
    outcome: Result<A::Response, A::Error>,
) -> bool
    where
        A: InvocationService<HttpRequest<Body>>,
        B: InvocationService<HttpRequest<Body>, Response = A::Response, Error = A::Error>,
{
    match route_of(req.version, req.headers@) {
        Route::Grpc => service.grpc.called(req, &after.grpc, outcome),
        Route::Rest => service.rest.called(req, &after.rest, outcome),
    }
}

/// Two calls in a row do not cross. Each outcome is the answer of the stack
/// that its own request selects, to that request; the stack that a call does
/// not select is not touched by it, so where the two requests select
/// different stacks, neither call can have had a part in the other's answer.
pub proof fn lemma_no_cross_talk<A, B, Body>(
    before: MultiplexService<A, B>,
    first: HttpRequest<Body>,
    between: MultiplexService<A, B>,
    first_outcome: Result<A::Response, A::Error>,
    second: HttpRequest<Body>,
    after: MultiplexService<A, B>,
    second_outcome: Result<A::Response, A::Error>,
)
    where
        A: InvocationService<HttpRequest<Body>>,
        B: InvocationService<HttpRequest<Body>, Response = A::Response, Error = A::Error>,
    requires
        before.called(first, &between, first_outcome),
        between.called(second, &after, second_outcome),
    ensures
        answered_by_own_stack(before, first, between, first_outcome),
        answered_by_own_stack(between, second, after, second_outcome),
        route_of(first.version, first.headers@) == Route::Grpc ==> between.rest == before.rest,
        route_of(first.version, first.headers@) == Route::Rest ==> between.grpc == before.grpc,
        route_of(second.version, second.headers@) == Route::Grpc ==> after.rest == between.rest,
        route_of(second.version, second.headers@) == Route::Rest ==> after.grpc == between.grpc,
{
}

} // verus!
