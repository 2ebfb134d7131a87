//! What holds of every request, stated over a whole exchange: the three
//! steps of the protocol run against an identity service that answers each
//! call in a fixed way.

use vstd::prelude::*;
use crate::decision::{
    AuthDecision,
    RejectReason,
    INVALID_TOKEN_BODY,
    MISSING_TOKEN_BODY,
    REJECTION_STATUS,
};
use crate::identity::IdentityStatus;
use crate::interceptor::{
    is_success,
    BodyEvent,
    ResponseEvent,
    ResponseStep,
    StepView,
    ValidationRequestView,
};
use crate::middleware::{method_is_lax, path_is_lax, MissingTokenPolicy, Rules};
use crate::request::{
    cookie_credential,
    credential_of,
    header_credential,
    is_credential_header,
    lemma_cookie_credential_is_first_match,
    lemma_header_credential_is_first_match,
    CookieView,
    RequestView,
    CREDENTIAL_NAME,
};
use crate::text::{contains_ignore_ascii_case, eq_ignore_ascii_case, fold_ascii};

verus! {

/// The answer of an identity service to one call: how the call ended and,
/// should the body be read, how that ended.
pub ghost struct Reply {
    pub response: ResponseEvent,
    pub body: BodyEvent,
}

/// An identity service that answers equal calls equally.
pub type IdentityService = spec_fn(ValidationRequestView) -> Reply;

/// The decision on `request` when the calls go to `service`.
pub open spec fn run(rules: Rules, request: RequestView, service: IdentityService) -> AuthDecision {
    match rules.on_request(request) {
        StepView::Finish(decision) => decision,
        StepView::Validate(call) => match rules.on_response(service(call).response) {
            ResponseStep::Finish(decision) => decision,
            ResponseStep::ReadBody => rules.on_body(service(call).body),
        },
    }
}

/// The number of calls that `request` costs the identity service.
pub open spec fn remote_calls(rules: Rules, request: RequestView) -> nat {
    match rules.on_request(request) {
        StepView::Finish(_) => 0,
        StepView::Validate(_) => 1,
    }
}

/// The decisions on a series of requests, one after the other.
pub open spec fn serve(rules: Rules, requests: Seq<RequestView>, service: IdentityService) -> Seq<
    AuthDecision,
> {
    Seq::new(requests.len(), |i: int| run(rules, requests[i], service))
}

/// A request whose path begins with a configured prefix goes on as it came:
/// nothing is attached to it, the downstream handler finds it unchecked, and
/// the identity service is not called.
pub proof fn lemma_lax_path_is_forwarded(
    rules: Rules,
    request: RequestView,
    service: IdentityService,
    i: int,
)
    requires
        0 <= i < rules.lax_paths.len(),
        rules.lax_paths[i].is_prefix_of(request.path),
    ensures
        rules.on_request(request) == StepView::Finish(AuthDecision::Bypassed),
        run(rules, request, service) == AuthDecision::Bypassed,
        run(rules, request, service).forwards(),
        !run(rules, request, service).attaches(),
        run(rules, request, service).observed() == Some(IdentityStatus::NotChecked),
        remote_calls(rules, request) == 0,
{
    assert(path_is_lax(rules.lax_paths, request.path));
}

/// A request whose method is a configured one goes on as it came, whatever
/// its path: nothing is attached to it, the downstream handler finds it
/// unchecked, and the identity service is not called.
pub proof fn lemma_lax_method_is_forwarded(
    rules: Rules,
    request: RequestView,
    service: IdentityService,
    i: int,
)
    requires
        0 <= i < rules.lax_methods.len(),
        rules.lax_methods[i] == request.method,
    ensures
        rules.on_request(request) == StepView::Finish(AuthDecision::Bypassed),
        run(rules, request, service) == AuthDecision::Bypassed,
        run(rules, request, service).forwards(),
        !run(rules, request, service).attaches(),
        run(rules, request, service).observed() == Some(IdentityStatus::NotChecked),
        remote_calls(rules, request) == 0,
{
    assert(method_is_lax(rules.lax_methods, request.method));
}

/// A request in which no header and no cookie is named `Authorization` has
/// the empty credential.
pub proof fn lemma_no_source_no_credential(request: RequestView)
    requires
        forall|i: int|
            0 <= i < request.headers.len() ==> !is_credential_header(
                #[trigger] request.headers[i].name,
            ),
        forall|i: int|
            0 <= i < request.cookies.len() ==> (#[trigger] request.cookies[i]).name
                != CREDENTIAL_NAME@,
    ensures
        header_credential(request.headers) is None,
        cookie_credential(request.cookies) is None,
        credential_of(request) == Seq::<char>::empty(),
{
    lemma_header_credential_is_first_match(request.headers);
    lemma_cookie_credential_is_first_match(request.cookies);
}

/// Under the strict policy a request that is not exempt and has the empty
/// credential, as one with neither a credential header nor a credential
/// cookie has, is rejected for its missing token, and the identity service
/// is not called. Whether the interceptor is set to go on after a failed
/// validation does not matter.
pub proof fn lemma_strict_rejects_missing_credential(
    rules: Rules,
    request: RequestView,
    service: IdentityService,
)
    requires
        rules.missing_token == MissingTokenPolicy::Strict,
        !rules.bypasses(request),
        credential_of(request).len() == 0,
    ensures
        rules.on_request(request) == StepView::Finish(
            AuthDecision::Rejected(RejectReason::MissingToken),
        ),
        run(rules, request, service) == AuthDecision::Rejected(RejectReason::MissingToken),
        !run(rules, request, service).forwards(),
        remote_calls(rules, request) == 0,
{
}

/// Under the lenient policy a request that is not exempt and has the empty
/// credential fares as any request whose credential the identity service
/// does not confirm: the empty credential is sent, once.
pub proof fn lemma_lenient_validates_missing_credential(rules: Rules, request: RequestView)
    requires
        rules.missing_token == MissingTokenPolicy::Lenient,
        !rules.bypasses(request),
        credential_of(request).len() == 0,
    ensures
        rules.on_request(request) == StepView::Validate(rules.validation(Seq::empty())),
        remote_calls(rules, request) == 1,
{
    assert(credential_of(request) =~= Seq::empty());
}

/// With no prefix and no method configured no request is exempt.
pub proof fn lemma_empty_rules_exempt_nothing(rules: Rules, request: RequestView)
    requires
        rules.lax_paths.len() == 0,
        rules.lax_methods.len() == 0,
    ensures
        !rules.bypasses(request),
        rules.on_request(request) != StepView::Finish(AuthDecision::Bypassed),
{
}

/// The rejection for a missing token has status 401, and its body holds the
/// word "Missing", the case of letters not counting. The body of the other
/// rejection does not hold that word, so a client can tell the two apart.
pub proof fn lemma_missing_token_rejection_says_so()
    ensures
        REJECTION_STATUS == 401,
        contains_ignore_ascii_case(RejectReason::MissingToken.body_text(), "Missing"@),
        !contains_ignore_ascii_case(RejectReason::InvalidToken.body_text(), "Missing"@),
{
    reveal_strlit("Unauthorized: missing token");
    reveal_strlit("Unauthorized: invalid or expired token");
    reveal_strlit("Missing");
    let word = "Missing"@;
    let body = MISSING_TOKEN_BODY@;
    let at: int = 14;
    assert(eq_ignore_ascii_case(body.subrange(at, at + word.len()), word));
    let other = INVALID_TOKEN_BODY@;
    assert forall|start: int| 0 <= start && start + word.len() <= other.len() implies
        !eq_ignore_ascii_case(#[trigger] other.subrange(start, start + word.len()), word) by {
        let window = other.subrange(start, start + word.len());
        assert(window[0] == other[start]);
        assert(fold_ascii(other[start]) != fold_ascii(word[0]));
    }
}

/// Where the headers carry a credential, the cookies do not count: the
/// credential is the header's, it is the one sent to the identity service,
/// and other cookies in the request's place change nothing.
pub proof fn lemma_header_takes_precedence(
    rules: Rules,
    request: RequestView,
    cookies: Seq<CookieView>,
)
    requires
        header_credential(request.headers) is Some,
    ensures
        credential_of(request) == header_credential(request.headers)->0,
        rules.on_request(request) matches StepView::Validate(call) ==> call.credential
            == header_credential(request.headers)->0,
        rules.on_request(RequestView { cookies, ..request }) == rules.on_request(request),
{
}

/// A request that is not exempt and carries a credential costs the identity
/// service exactly one call, whose target, credential and bound are the
/// configured address, the request's credential and the configured bound.
pub proof fn lemma_one_call_per_checked_request(rules: Rules, request: RequestView)
    requires
        !rules.bypasses(request),
        credential_of(request).len() > 0 || rules.missing_token == MissingTokenPolicy::Lenient,
    ensures
        remote_calls(rules, request) == 1,
        rules.on_request(request) == StepView::Validate(
            ValidationRequestView {
                url: rules.api_url,
                credential: credential_of(request),
                timeout_ms: rules.timeout_ms,
            },
        ),
{
}

/// A call that the identity service answers with a status of success and a
/// body that decodes authenticates the request: it goes on, and the
/// downstream handler finds the decoded identity.
pub proof fn lemma_confirmed_credential_is_forwarded(
    rules: Rules,
    request: RequestView,
    service: IdentityService,
)
    requires
        rules.on_request(request) is Validate,
        service(rules.on_request(request)->Validate_0).response matches ResponseEvent::Status(
            status,
        ) && is_success(status),
        service(rules.on_request(request)->Validate_0).body is Decoded,
    ensures
        run(rules, request, service) == AuthDecision::Authenticated(
            service(rules.on_request(request)->Validate_0).body->Decoded_0,
        ),
        run(rules, request, service).forwards(),
        run(rules, request, service).observed() == Some(
            IdentityStatus::CheckedPresent(
                service(rules.on_request(request)->Validate_0).body->Decoded_0,
            ),
        ),
{
}

/// Whether the answer of the identity service confirms the credential.
pub open spec fn confirms(reply: Reply) -> bool {
    &&& reply.response matches ResponseEvent::Status(status) && is_success(status)
    &&& reply.body is Decoded
}

/// Every way in which a validation can fail has the same end, so that a
/// client cannot tell one from another: the request is rejected for an
/// invalid token, or, where the interceptor is set to go on, forwarded with
/// the mark of a caller that was checked and has no identity.
pub proof fn lemma_failures_are_alike(rules: Rules, request: RequestView, service: IdentityService)
    requires
        rules.on_request(request) is Validate,
        !confirms(service(rules.on_request(request)->Validate_0)),
    ensures
        run(rules, request, service) == rules.on_failure(),
        !rules.continue_on_fail ==> run(rules, request, service) == AuthDecision::Rejected(
            RejectReason::InvalidToken,
        ) && !run(rules, request, service).forwards(),
        rules.continue_on_fail ==> run(rules, request, service)
            == AuthDecision::AuthenticatedAnonymous && run(rules, request, service).observed()
            == Some(IdentityStatus::CheckedAbsent),
{
}

/// A validation call that runs into its bound counts as one that failed in
/// transit, at either step.
pub proof fn lemma_timeout_is_a_transport_failure(rules: Rules)
    ensures
        rules.on_response(ResponseEvent::TimedOut) == rules.on_response(
            ResponseEvent::TransportFailure,
        ),
        rules.on_response(ResponseEvent::TimedOut) == ResponseStep::Finish(rules.on_failure()),
        rules.on_body(BodyEvent::TimedOut) == rules.on_body(BodyEvent::TransportFailure),
        rules.on_body(BodyEvent::TimedOut) == rules.on_failure(),
{
}

/// The decision on a request depends on nothing that came before it: in a
/// series of requests, equal requests get equal decisions.
pub proof fn lemma_equal_requests_equal_decisions(
    rules: Rules,
    requests: Seq<RequestView>,
    service: IdentityService,
    i: int,
    j: int,
)
    requires
        0 <= i < requests.len(),
        0 <= j < requests.len(),
        requests[i] == requests[j],
    ensures
        serve(rules, requests, service).len() == requests.len(),
        serve(rules, requests, service)[i] == serve(rules, requests, service)[j],
        serve(rules, requests, service)[i] == run(rules, requests[i], service),
{
}

/// Something is attached to a request exactly when its credential was
/// looked at and the request goes on, and the downstream handler runs
/// exactly when the request is not rejected. What the handler then finds
/// tells the three apart: not checked, checked and absent, checked and
/// present.
pub proof fn lemma_attachment_follows_decision(decision: AuthDecision)
    ensures
        decision.forwards() <==> !(decision is Rejected),
        decision.forwards() <==> decision.observed() is Some,
        decision.attaches() ==> decision.forwards(),
        decision.attaches() <==> decision.observed() is Some && decision.observed()
            != Some(IdentityStatus::NotChecked),
        decision is Bypassed <==> decision.observed() == Some(IdentityStatus::NotChecked),
        decision is AuthenticatedAnonymous <==> decision.observed() == Some(
            IdentityStatus::CheckedAbsent,
        ),
        decision is Authenticated <==> decision.observed() is Some
            && decision.observed()->0 is CheckedPresent,
{
}

} // verus!
