//! The logging layer: it records each request with the layer's target label
//! and hands the request on unchanged.

use crate::service::InvocationService;
use std::fmt::Debug;
use std::task::Context;
use std::task::Poll;
use vstd::prelude::*;

verus! {

/// One diagnostic record of the logging layer.
#[derive(Debug, PartialEq, Eq)]
pub struct LogRecord {
    /// The request as its `Debug` implementation prints it.
    pub request: String,
    /// The label of the layer that made the record.
    pub target: &'static str,
}

/// Makes logging services that share one target label.
#[derive(Clone, Copy, Debug)]
pub struct LogLayer {
    target: &'static str,
}

impl LogLayer {
    pub closed spec fn target_label(&self) -> &'static str {
        self.target
    }

    pub fn new(target: &'static str) -> (layer: LogLayer)
        ensures
            layer.target_label() == target,
    {
        LogLayer { target }
    }

    /// The label that services made by this layer carry.
    pub fn target(&self) -> (target: &'static str)
        ensures
            target == self.target_label(),
    {
        self.target
    }

    /// Wraps `service`. The new service carries the layer's label, holds
    /// `service` untouched and starts with an empty journal.
    pub fn layer<S>(&self, service: S) -> (wrapped: LogService<S>)
        ensures
            wrapped.target == self.target_label(),
            wrapped.inner == service,
            wrapped.journal@.len() == 0,
    {
        LogService { target: self.target, inner: service, journal: Vec::new() }
    }
}

/// A service that journals every request before the wrapped service sees it.
pub struct LogService<S> {
    pub target: &'static str,
    pub inner: S,
    /// The records made so far and not yet taken, oldest first.
    pub journal: Vec<LogRecord>,
}

/// `format!` with `{:?}`: the text that the request's `Debug` implementation
/// writes. The text is whatever that implementation chooses, so nothing is
/// claimed of it.
#[verifier::external_body]
fn debug_text<Request: Debug>(request: &Request) -> String {
    format!("{:?}", request)
}

impl<S> LogService<S> {
    /// Hands out the journal and leaves it empty.
    pub fn take_records(&mut self) -> (records: Vec<LogRecord>)
        ensures
            records@ == old(self).journal@,
            final(self).journal@.len() == 0,
            final(self).inner == old(self).inner,
            final(self).target == old(self).target,
    {
        let mut records: Vec<LogRecord> = Vec::new();
        std::mem::swap(&mut self.journal, &mut records);
        records
    }
}

impl<S, Request> InvocationService<Request> for LogService<S>
where
    S: InvocationService<Request>,
    Request: Debug,
{
    type Response = S::Response;

    type Error = S::Error;

    type Future = S::Future;

    open spec fn is_ready(&self) -> bool {
        self.inner.is_ready()
    }

    open spec fn polled(&self, after: &Self, outcome: Poll<Result<(), Self::Error>>) -> bool {
        &&& self.inner.polled(&after.inner, outcome)
        &&& after.target == self.target
        &&& after.journal@ == self.journal@
    }

    open spec fn called(
        &self,
        req: Request,
        after: &Self,
        outcome: Result<Self::Response, Self::Error>,
    ) -> bool {
        &&& self.inner.called(req, &after.inner, outcome)
        &&& after.target == self.target
        &&& after.journal@.len() == self.journal@.len() + 1
        &&& after.journal@.drop_last() == self.journal@
        &&& after.journal@.last().target == self.target
    }

    fn poll_ready(&mut self, cx: &mut Context<'_>) -> (r: Poll<Result<(), Self::Error>>) {
        self.inner.poll_ready(cx)
    }

    fn call(&mut self, request: Request) -> (fut: Self::Future) {
        let text = debug_text(&request);
        self.journal.push(LogRecord { request: text, target: self.target });
        assert(self.journal@.drop_last() =~= old(self).journal@);
        self.inner.call(request)
    }
}

/// The logging layer masks nothing on the way to readiness: what a poll of
/// the logged service reports, pending and errors included, is what the
/// wrapped service reported.
pub proof fn lemma_logged_poll_is_inner_poll<S, Request>(
    service: LogService<S>,
    after: LogService<S>,
    outcome: Poll<Result<(), S::Error>>,
)
    where
        S: InvocationService<Request>,
        Request: Debug,
    requires
        InvocationService::<Request>::polled(&service, &after, outcome),
    ensures
        service.inner.polled(&after.inner, outcome),
        after.journal@ == service.journal@,
{
}

/// The logging layer gives away nothing of its own: whatever a logged call
/// resolves to, the wrapped service resolves to for the same request, and it
/// is left in the same state.
pub proof fn lemma_logged_outcome_is_inner_outcome<S, Request>(
    service: LogService<S>,
    req: Request,
    after: LogService<S>,
    outcome: Result<S::Response, S::Error>,
)
    where
        S: InvocationService<Request>,
        Request: Debug,
    requires
        service.called(req, &after, outcome),
    ensures
        service.inner.called(req, &after.inner, outcome),
{
}

/// The logging layer withholds nothing: whatever the wrapped service may
/// resolve to for a request, the logged call may resolve to as well, once the
/// journal has grown by one record under the layer's label.
pub proof fn lemma_inner_outcome_is_logged_outcome<S, Request>(
    service: LogService<S>,
    req: Request,
    after: LogService<S>,
    record: LogRecord,
    outcome: Result<S::Response, S::Error>,
)
    where
        S: InvocationService<Request>,
        Request: Debug,
    requires
        service.inner.called(req, &after.inner, outcome),
        after.target == service.target,
        after.journal@ == service.journal@.push(record),
        record.target == service.target,
    ensures
        service.called(req, &after, outcome),
{
    assert(after.journal@.drop_last() =~= service.journal@);
}

} // verus!
