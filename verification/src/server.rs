//! The inbound side: the header rule that every request passes on its way
//! in, and the plan that a launch of the server follows.

use crate::address::SocketAddress;
use crate::http::HeaderRule;
use crate::http::Headers;
use crate::http::HttpRequest;
use crate::http::InsertMode;
use crate::service::InvocationService;
use std::task::Context;
use std::task::Poll;
use vstd::future::FutureAdditionalSpecFns;
use vstd::prelude::*;
use vstd::string::StringSliceAdditionalSpecFns;

verus! {

/// Whether `passed` is `req` after `rule`: the headers as the rule leaves
/// them, and everything else, the body included, as it was.
pub open spec fn passed_rule<B>(rule: HeaderRule, req: HttpRequest<B>, passed: HttpRequest<B>) -> bool {
    &&& passed.headers@ == rule.applied(req.headers@)
    &&& passed.method == req.method
    &&& passed.uri == req.uri
    &&& passed.version == req.version
    &&& passed.body == req.body
}

/// A service that passes a header rule over each request before the wrapped
/// service sees it.
pub struct SetRequestHeader<S> {
    pub inner: S,
    pub rule: HeaderRule,
}

impl<S> SetRequestHeader<S> {
    pub fn new(inner: S, rule: HeaderRule) -> (service: Self)
        ensures
            service.inner == inner,
            service.rule == rule,
    {
        SetRequestHeader { inner, rule }
    }
}

impl<S, B> InvocationService<HttpRequest<B>> for SetRequestHeader<S>
where
    S: InvocationService<HttpRequest<B>>,
{
    type Response = S::Response;

    type Error = S::Error;

    type Future = S::Future;

    open spec fn is_ready(&self) -> bool {
        self.inner.is_ready()
    }

    open spec fn polled(&self, after: &Self, outcome: Poll<Result<(), Self::Error>>) -> bool {
        &&& self.inner.polled(&after.inner, outcome)
        &&& after.rule == self.rule
    }

    /// The wrapped service is called with the request as the rule leaves
    /// it.
    open spec fn called(
        &self,
        req: HttpRequest<B>,
        after: &Self,
        outcome: Result<Self::Response, Self::Error>,
    ) -> bool {
        &&& after.rule == self.rule
        &&& exists|passed: HttpRequest<B>|
            passed_rule(self.rule, req, passed) && #[trigger] self.inner.called(
                passed,
                &after.inner,
                outcome,
            )
    }

    fn poll_ready(&mut self, cx: &mut Context<'_>) -> (r: Poll<Result<(), Self::Error>>) {
        self.inner.poll_ready(cx)
    }

    fn call(&mut self, req: HttpRequest<B>) -> (fut: Self::Future) {
        let passed = self.rule.on_request(req);
        let fut = self.inner.call(passed);
        assert(passed_rule(self.rule, req, passed) && old(self).inner.called(
            passed,
            &self.inner,
            fut@,
        ));
        fut
    }
}

/// What a launch of the server does: where it listens, and which header
/// rules requests and responses pass.
#[derive(Debug)]
pub struct LaunchPlan {
    pub listen: SocketAddress,
    /// Passed over each request before it is dispatched.
    pub request_rule: HeaderRule,
    /// Passed over each response before it leaves.
    pub response_rule: HeaderRule,
}

/// The plan of the server: it listens on the loopback address, port 3000,
/// marks each request that carries no `warning` header, and sets the
/// `user-agent` header of each response whatever the stack put there.
pub fn launch_plan() -> (plan: LaunchPlan)
    ensures
        plan.listen matches SocketAddress::V4 { octets, port } && octets@ == seq![127u8, 0, 0, 1]
            && port == 3000,
        plan.request_rule.key() == Headers::key_of("warning"@),
        plan.request_rule.value() == "my very cool app".spec_bytes(),
        plan.request_rule.mode() == InsertMode::IfNotPresent,
        plan.response_rule.key() == Headers::key_of("user-agent"@),
        plan.response_rule.value() == "My-Value".spec_bytes(),
        plan.response_rule.mode() == InsertMode::Override,
{
    let octets: [u8; 4] = [127, 0, 0, 1];
    LaunchPlan {
        listen: SocketAddress::V4 { octets, port: 3000 },
        request_rule: HeaderRule::if_not_present("warning", "my very cool app".as_bytes()),
        response_rule: HeaderRule::overriding("user-agent", "My-Value".as_bytes()),
    }
}

/// The greeting that the greeter service answers with.
pub fn say_hello(name: &str) -> (message: String)
    ensures
        message@ == "Hello "@ + name@ + "!"@,
{
    let mut message = String::from_str("Hello ");
    message.append(name);
    message.append("!");
    message
}

} // verus!
