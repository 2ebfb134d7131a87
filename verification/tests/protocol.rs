use std::cell::RefCell;

use auth_middleware::{
    AuthDecision, AuthMiddleware, AuthMiddlewareImpl, BodyEvent, IdentityStatus, Method,
    MissingTokenPolicy, Points, RejectReason, RemoteUser, RequestHead, ResponseEvent,
    ResponseStep, Step, ValidationRequest,
};

fn user(name: &str) -> RemoteUser {
    RemoteUser {
        id: format!("id-{name}"),
        created_at: None,
        deleted_at: None,
        updated_at: None,
        enabled: Some(true),
        mobile: None,
        phone_verified: None,
        username: name.to_string(),
        referral_code_id: None,
        available_points: Points::from_bits(0),
    }
}

/// An identity service that knows one good token and counts its calls.
struct Stub {
    calls: RefCell<Vec<ValidationRequest>>,
}

impl Stub {
    fn new() -> Stub {
        Stub { calls: RefCell::new(Vec::new()) }
    }

    fn answer(&self, call: &ValidationRequest) -> (ResponseEvent, BodyEvent) {
        self.calls.borrow_mut().push(call.clone());
        match call.credential.as_str() {
            "good-token" => (ResponseEvent::Status(200), BodyEvent::Decoded(user("alice"))),
            "garbled-token" => (ResponseEvent::Status(200), BodyEvent::Malformed),
            "cut-token" => (ResponseEvent::Status(200), BodyEvent::TransportFailure),
            "slow-body-token" => (ResponseEvent::Status(200), BodyEvent::TimedOut),
            "slow-token" => (ResponseEvent::TimedOut, BodyEvent::TimedOut),
            "down-token" => (ResponseEvent::TransportFailure, BodyEvent::TransportFailure),
            "error-token" => (ResponseEvent::Status(500), BodyEvent::Decoded(user("mallory"))),
            _ => (ResponseEvent::Status(401), BodyEvent::Malformed),
        }
    }

    fn count(&self) -> usize {
        self.calls.borrow().len()
    }
}

/// Runs the three steps of one request against the stub.
fn drive<S>(svc: &AuthMiddlewareImpl<S>, request: &RequestHead, stub: &Stub) -> AuthDecision {
    match svc.call(request) {
        Step::Finish(decision) => decision,
        Step::Validate(call) => {
            let (response, body) = stub.answer(&call);
            match svc.on_response(response) {
                ResponseStep::Finish(decision) => decision,
                ResponseStep::ReadBody => svc.on_body(body),
            }
        }
    }
}

fn strict(continue_on_fail: bool) -> AuthMiddlewareImpl<()> {
    AuthMiddleware::new(vec!["/public".to_string()], vec![Method::new("OPTIONS")], continue_on_fail)
        .new_transform(())
}

fn lenient(continue_on_fail: bool) -> AuthMiddlewareImpl<()> {
    AuthMiddleware::new(vec!["/public".to_string()], vec![Method::new("OPTIONS")], continue_on_fail)
        .with_missing_token_policy(MissingTokenPolicy::Lenient)
        .new_transform(())
}

fn get(path: &str) -> RequestHead {
    RequestHead::new(path, Method::new("GET"))
}

#[test]
fn bypassed_path_never_reaches_identity_service() {
    let stub = Stub::new();
    for svc in [strict(false), strict(true), lenient(false), lenient(true)] {
        let request = get("/public/logo.png").with_header("Authorization", "bad-token");
        assert_eq!(drive(&svc, &request, &stub), AuthDecision::Bypassed);
        let request = get("/public/logo.png");
        assert_eq!(drive(&svc, &request, &stub), AuthDecision::Bypassed);
    }
    assert_eq!(stub.count(), 0);
}

#[test]
fn bypassed_method_never_reaches_identity_service() {
    let stub = Stub::new();
    for svc in [strict(false), strict(true), lenient(false), lenient(true)] {
        for path in ["/private", "/public", "/"] {
            let request = RequestHead::new(path, Method::new("OPTIONS"))
                .with_cookie("Authorization", "bad-token");
            assert_eq!(drive(&svc, &request, &stub), AuthDecision::Bypassed);
        }
    }
    assert_eq!(stub.count(), 0);
}

#[test]
fn strict_policy_rejects_missing_credential_without_a_call() {
    let stub = Stub::new();
    for svc in [strict(false), strict(true)] {
        let request = get("/private").with_header("Accept", "*/*").with_cookie("theme", "dark");
        let decision = drive(&svc, &request, &stub);
        assert_eq!(decision, AuthDecision::Rejected(RejectReason::MissingToken));
        let reason = decision.rejection().unwrap();
        assert_eq!(reason.status(), 401);
        assert!(reason.body().to_lowercase().contains("missing"));
    }
    assert_eq!(stub.count(), 0);
}

#[test]
fn strict_policy_rejects_empty_header_credential() {
    let stub = Stub::new();
    let request = get("/private").with_header("Authorization", "");
    assert_eq!(
        drive(&strict(false), &request, &stub),
        AuthDecision::Rejected(RejectReason::MissingToken)
    );
    assert_eq!(stub.count(), 0);
}

#[test]
fn lenient_policy_sends_the_empty_credential() {
    let stub = Stub::new();
    let request = get("/private");
    assert_eq!(
        lenient(false).call(&request),
        Step::Validate(ValidationRequest {
            url: "http://localhost:8080/api/profile".to_string(),
            credential: String::new(),
            timeout_ms: 5000,
        })
    );
    assert_eq!(
        drive(&lenient(false), &request, &stub),
        AuthDecision::Rejected(RejectReason::InvalidToken)
    );
    assert_eq!(stub.count(), 1);
    assert_eq!(drive(&lenient(true), &request, &stub), AuthDecision::AuthenticatedAnonymous);
    assert_eq!(stub.count(), 2);
    assert_eq!(stub.calls.borrow()[0].credential, "");
}

#[test]
fn validation_call_carries_header_value_not_cookie() {
    let stub = Stub::new();
    let request = get("/private")
        .with_cookie("Authorization", "bad-token")
        .with_header("Authorization", "good-token");
    let decision = drive(&strict(false), &request, &stub);
    assert_eq!(decision, AuthDecision::Authenticated(user("alice")));
    assert_eq!(stub.count(), 1);
    assert_eq!(stub.calls.borrow()[0].credential, "good-token");

    let request = get("/private")
        .with_cookie("Authorization", "good-token")
        .with_header("Authorization", "bad-token");
    let decision = drive(&strict(false), &request, &stub);
    assert_eq!(decision, AuthDecision::Rejected(RejectReason::InvalidToken));
    assert_eq!(stub.count(), 2);
    assert_eq!(stub.calls.borrow()[1].credential, "bad-token");
}

#[test]
fn validation_call_goes_to_configured_address_with_configured_bound() {
    let svc = AuthMiddleware::new(vec![], vec![], false)
        .with_api_url("https://id.example/api/profile".to_string())
        .with_timeout_ms(750)
        .new_transform(());
    let request = get("/private").with_cookie("Authorization", "cookie-token");
    assert_eq!(
        svc.call(&request),
        Step::Validate(ValidationRequest {
            url: "https://id.example/api/profile".to_string(),
            credential: "cookie-token".to_string(),
            timeout_ms: 750,
        })
    );
}

#[test]
fn good_token_is_forwarded_with_identity() {
    let stub = Stub::new();
    let request = get("/private").with_header("Authorization", "good-token");
    for svc in [strict(false), strict(true), lenient(false), lenient(true)] {
        let decision = drive(&svc, &request, &stub);
        assert!(decision.is_forwarded());
        assert!(decision.writes_context());
        match decision.into_observed() {
            Some(IdentityStatus::CheckedPresent(identity)) => {
                assert_eq!(identity.username, "alice");
                assert_eq!(identity, user("alice"));
            }
            other => panic!("no identity attached: {other:?}"),
        }
    }
    assert_eq!(stub.count(), 4);
}

#[test]
fn bad_token_is_rejected_without_continue_on_fail() {
    let stub = Stub::new();
    let request = get("/private").with_header("Authorization", "bad-token");
    let decision = drive(&strict(false), &request, &stub);
    assert_eq!(decision, AuthDecision::Rejected(RejectReason::InvalidToken));
    assert!(!decision.is_forwarded());
    let reason = decision.rejection().unwrap();
    assert_eq!(reason.status(), 401);
    assert_eq!(reason.body(), "Unauthorized: invalid or expired token");
    assert_eq!(decision.into_observed(), None);
    assert_eq!(stub.count(), 1);
}

#[test]
fn bad_token_is_forwarded_marked_with_continue_on_fail() {
    let stub = Stub::new();
    let request = get("/private").with_header("Authorization", "bad-token");
    let decision = drive(&strict(true), &request, &stub);
    assert_eq!(decision, AuthDecision::AuthenticatedAnonymous);
    assert!(decision.is_forwarded());
    assert!(decision.writes_context());
    let observed = decision.into_observed();
    assert_eq!(observed, Some(IdentityStatus::CheckedAbsent));
    assert_ne!(observed, Some(IdentityStatus::NotChecked));
    assert_eq!(stub.count(), 1);
}

#[test]
fn every_failure_mode_ends_alike() {
    let stub = Stub::new();
    let tokens = [
        "bad-token",
        "garbled-token",
        "cut-token",
        "slow-body-token",
        "slow-token",
        "down-token",
        "error-token",
    ];
    for token in tokens {
        let request = get("/private").with_header("Authorization", token);
        assert_eq!(
            drive(&strict(false), &request, &stub),
            AuthDecision::Rejected(RejectReason::InvalidToken),
            "{token}"
        );
        assert_eq!(
            drive(&strict(true), &request, &stub),
            AuthDecision::AuthenticatedAnonymous,
            "{token}"
        );
    }
    assert_eq!(stub.count(), 2 * tokens.len());
}

#[test]
fn success_statuses_are_200_to_299() {
    let svc = strict(false);
    let failed = ResponseStep::Finish(AuthDecision::Rejected(RejectReason::InvalidToken));
    for status in 0u16..=1000 {
        let step = svc.on_response(ResponseEvent::Status(status));
        if (200..=299).contains(&status) {
            assert_eq!(step, ResponseStep::ReadBody, "{status}");
        } else {
            assert_eq!(step, failed, "{status}");
        }
    }
    assert_eq!(svc.on_response(ResponseEvent::Status(u16::MAX)), failed);
}

#[test]
fn response_that_never_comes_is_a_failure() {
    let rejected = ResponseStep::Finish(AuthDecision::Rejected(RejectReason::InvalidToken));
    let anonymous = ResponseStep::Finish(AuthDecision::AuthenticatedAnonymous);
    assert_eq!(strict(false).on_response(ResponseEvent::TimedOut), rejected);
    assert_eq!(strict(false).on_response(ResponseEvent::TransportFailure), rejected);
    assert_eq!(strict(true).on_response(ResponseEvent::TimedOut), anonymous);
    assert_eq!(strict(true).on_response(ResponseEvent::TransportFailure), anonymous);
}

#[test]
fn body_outcomes() {
    let svc = strict(false);
    assert_eq!(
        svc.on_body(BodyEvent::Decoded(user("bob"))),
        AuthDecision::Authenticated(user("bob"))
    );
    for event in [BodyEvent::Malformed, BodyEvent::TransportFailure, BodyEvent::TimedOut] {
        assert_eq!(
            svc.on_body(event.clone()),
            AuthDecision::Rejected(RejectReason::InvalidToken)
        );
        assert_eq!(strict(true).on_body(event), AuthDecision::AuthenticatedAnonymous);
    }
    assert_eq!(
        strict(true).on_body(BodyEvent::Decoded(user("bob"))),
        AuthDecision::Authenticated(user("bob"))
    );
}

#[test]
fn same_request_twice_gives_same_decision() {
    let stub = Stub::new();
    let requests = [
        get("/public/x"),
        get("/private"),
        get("/private").with_header("Authorization", "good-token"),
        get("/private").with_header("Authorization", "bad-token"),
        get("/private").with_cookie("Authorization", "good-token"),
        RequestHead::new("/private", Method::new("OPTIONS")),
    ];
    for svc in [strict(false), strict(true), lenient(false), lenient(true)] {
        let first: Vec<AuthDecision> = requests.iter().map(|r| drive(&svc, r, &stub)).collect();
        let second: Vec<AuthDecision> = requests.iter().rev().map(|r| drive(&svc, r, &stub)).collect();
        let second: Vec<AuthDecision> = second.into_iter().rev().collect();
        assert_eq!(first, second);
        for request in &requests {
            assert_eq!(svc.call(request), svc.call(request));
        }
    }
}

#[test]
fn each_checked_request_costs_one_call() {
    let stub = Stub::new();
    let svc = strict(false);
    drive(&svc, &get("/private").with_header("Authorization", "good-token"), &stub);
    assert_eq!(stub.count(), 1);
    drive(&svc, &get("/private").with_header("Authorization", "good-token"), &stub);
    assert_eq!(stub.count(), 2);
    drive(&svc, &get("/private").with_header("Authorization", "down-token"), &stub);
    assert_eq!(stub.count(), 3);
    drive(&svc, &get("/public"), &stub);
    drive(&svc, &get("/private"), &stub);
    assert_eq!(stub.count(), 3);
}
