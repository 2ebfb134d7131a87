//! The per-request protocol. The interceptor decides; the host performs the
//! one network call in between and reports back what happened.
//!
//! A request takes at most three steps. [`AuthMiddlewareImpl::call`] reads
//! the request and either settles it or asks for a validation call.
//! [`AuthMiddlewareImpl::on_response`] takes the outcome of that call and
//! either settles the request or asks for the response body to be read and
//! decoded. [`AuthMiddlewareImpl::on_body`] takes the outcome of that and
//! settles the request.

use std::rc::Rc;
use vstd::prelude::*;
use crate::decision::{AuthDecision, RejectReason};
use crate::identity::RemoteUser;
use crate::middleware::{AuthMiddleware, MissingTokenPolicy, Rules};
use crate::request::{credential_of, RequestHead, RequestView};

verus! {

/// One call to the identity service: a GET of `url` that carries
/// `credential` as its `Authorization` header and is given up after
/// `timeout_ms` milliseconds. It is made once and never repeated.
#[derive(Debug, Clone, PartialEq, Eq)]
pub struct ValidationRequest {
    pub url: String,
    pub credential: String,
    pub timeout_ms: u64,
}

/// Mathematical content of a [`ValidationRequest`].
pub ghost struct ValidationRequestView {
    pub url: Seq<char>,
    pub credential: Seq<char>,
    pub timeout_ms: u64,
}

impl View for ValidationRequest {
    type V = ValidationRequestView;

    open spec fn view(&self) -> ValidationRequestView {
        ValidationRequestView {
            url: self.url@,
            credential: self.credential@,
            timeout_ms: self.timeout_ms,
        }
    }
}

/// What follows the reading of a request.
#[derive(Debug, Clone, PartialEq, Eq)]
pub enum Step {
    /// The request is settled without the identity service.
    Finish(AuthDecision),
    /// The host makes this call and reports with
    /// [`AuthMiddlewareImpl::on_response`].
    Validate(ValidationRequest),
}

/// Mathematical content of a [`Step`].
pub ghost enum StepView {
    Finish(AuthDecision),
    Validate(ValidationRequestView),
}

impl View for Step {
    type V = StepView;

    open spec fn view(&self) -> StepView {
        match *self {
            Step::Finish(decision) => StepView::Finish(decision),
            Step::Validate(call) => StepView::Validate(call@),
        }
    }
}

/// How the validation call ended.
#[derive(Debug, Clone, Copy, PartialEq, Eq)]
pub enum ResponseEvent {
    /// No response came: the connection, the name lookup or the network
    /// failed.
    TransportFailure,
    /// No response came within the bound.
    TimedOut,
    /// A response came, with this status code.
    Status(u16),
}

/// What follows the response of the identity service.
#[derive(Debug, Clone, PartialEq, Eq)]
pub enum ResponseStep {
    /// The request is settled.
    Finish(AuthDecision),
    /// The host reads the response body, decodes it as an identity and
    /// reports with [`AuthMiddlewareImpl::on_body`].
    ReadBody,
}

/// How the reading of the response body ended.
#[derive(Debug, Clone, PartialEq, Eq)]
pub enum BodyEvent {
    /// The connection failed before the body was complete.
    TransportFailure,
    /// The body was not complete within the bound.
    TimedOut,
    /// The body is not an identity record.
    Malformed,
    /// The body is this identity record.
    Decoded(RemoteUser),
}

/// A status code in the range of success, 200 to 299.
pub open spec fn is_success(status: u16) -> bool {
    200 <= status < 300
}

impl Rules {
    /// The decision on a request whose credential was not confirmed,
    /// whatever the reason.
    pub open spec fn on_failure(self) -> AuthDecision {
        if self.continue_on_fail {
            AuthDecision::AuthenticatedAnonymous
        } else {
            AuthDecision::Rejected(RejectReason::InvalidToken)
        }
    }

    /// The validation call for a credential.
    pub open spec fn validation(self, credential: Seq<char>) -> ValidationRequestView {
        ValidationRequestView { url: self.api_url, credential, timeout_ms: self.timeout_ms }
    }

    /// First step: an exempt request goes on as it came; under the strict
    /// policy a request without a credential is rejected; for any other the
    /// credential is sent to the identity service.
    pub open spec fn on_request(self, request: RequestView) -> StepView {
        if self.bypasses(request) {
            StepView::Finish(AuthDecision::Bypassed)
        } else if credential_of(request).len() == 0 && self.missing_token
            == MissingTokenPolicy::Strict {
            StepView::Finish(AuthDecision::Rejected(RejectReason::MissingToken))
        } else {
            StepView::Validate(self.validation(credential_of(request)))
        }
    }

    /// Second step: only a response with a status of success leads on to
    /// its body; everything else is a failure.
    pub open spec fn on_response(self, event: ResponseEvent) -> ResponseStep {
        match event {
            ResponseEvent::Status(status) if is_success(status) => ResponseStep::ReadBody,
            _ => ResponseStep::Finish(self.on_failure()),
        }
    }

    /// Third step: a decoded identity authenticates the request; everything
    /// else is a failure.
    pub open spec fn on_body(self, event: BodyEvent) -> AuthDecision {
        match event {
            BodyEvent::Decoded(user) => AuthDecision::Authenticated(user),
            _ => self.on_failure(),
        }
    }
}

/// The interceptor in front of one downstream service.
pub struct AuthMiddlewareImpl<S> {
    service: Rc<S>,
    rules: AuthMiddleware,
}

impl AuthMiddleware {
    /// The interceptor with this configuration in front of `service`.
    pub fn new_transform<S>(&self, service: S) -> (made: AuthMiddlewareImpl<S>)
        ensures
            made.rules() == self@,
            made.downstream() == service,
    {
        AuthMiddlewareImpl { service: Rc::new(service), rules: self.clone() }
    }
}

impl<S> AuthMiddlewareImpl<S> {
    /// The configuration that the interceptor applies.
    pub closed spec fn rules(&self) -> Rules {
        self.rules@
    }

    /// The service that forwarded requests go to.
    pub closed spec fn downstream(&self) -> S {
        *self.service
    }

    /// The configuration that the interceptor applies.
    pub fn config(&self) -> (config: &AuthMiddleware)
        ensures
            config@ == self.rules(),
    {
        &self.rules
    }

    /// The service that forwarded requests go to.
    pub fn service(&self) -> (service: &Rc<S>)
        ensures
            **service == self.downstream(),
    {
        &self.service
    }

    /// The decision on a request whose credential was not confirmed.
    fn failure(&self) -> (decision: AuthDecision)
        ensures
            decision == self.rules().on_failure(),
    {
        if self.rules.continue_on_fail() {
            AuthDecision::AuthenticatedAnonymous
        } else {
            AuthDecision::Rejected(RejectReason::InvalidToken)
        }
    }

    /// Reads a request and says what follows: the decision, or the one call
    /// to the identity service that must come first.
    pub fn call(&self, request: &RequestHead) -> (step: Step)
        ensures
            step@ == self.rules().on_request(request@),
    {
        if self.rules.bypasses(request) {
            return Step::Finish(AuthDecision::Bypassed);
        }
        let credential = request.credential();
        let missing = credential.as_str().is_empty();
        if missing {
            match self.rules.missing_token_policy() {
                MissingTokenPolicy::Strict => {
                    return Step::Finish(AuthDecision::Rejected(RejectReason::MissingToken));
                },
                MissingTokenPolicy::Lenient => {},
            }
        }
        Step::Validate(
            ValidationRequest {
                url: self.rules.api_url().to_owned(),
                credential,
                timeout_ms: self.rules.timeout_ms(),
            },
        )
    }

    /// Takes the outcome of the validation call and says what follows: the
    /// decision, or the reading of the response body.
    pub fn on_response(&self, event: ResponseEvent) -> (step: ResponseStep)
        ensures
            step == self.rules().on_response(event),
    {
        match event {
            ResponseEvent::Status(status) => {
                if 200 <= status && status < 300 {
                    ResponseStep::ReadBody
                } else {
                    ResponseStep::Finish(self.failure())
                }
            },
            _ => ResponseStep::Finish(self.failure()),
        }
    }

    /// Takes the outcome of reading the response body and gives the
    /// decision.
    pub fn on_body(&self, event: BodyEvent) -> (decision: AuthDecision)
        ensures
            decision == self.rules().on_body(event),
    {
        match event {
            BodyEvent::Decoded(user) => AuthDecision::Authenticated(user),
            _ => self.failure(),
        }
    }
}

} // verus!
