use auth_middleware::{
    AuthDecision, AuthMiddleware, Method, MissingTokenPolicy, RequestHead, Step,
};

fn strings(items: &[&str]) -> Vec<String> {
    items.iter().map(|s| s.to_string()).collect()
}

fn methods(items: &[&str]) -> Vec<Method> {
    items.iter().map(|s| Method::new(s)).collect()
}

#[test]
fn lax_path_prefix_is_bypassed() {
    let mw = AuthMiddleware::new(strings(&["/public", "/health"]), methods(&[]), false);
    let svc = mw.new_transform(());
    for path in ["/public", "/public/", "/public/index.html", "/publicity", "/health", "/healthz"] {
        let req = RequestHead::new(path, Method::new("GET"));
        assert_eq!(svc.call(&req), Step::Finish(AuthDecision::Bypassed), "{path}");
    }
}

#[test]
fn lax_path_must_be_a_prefix() {
    let mw = AuthMiddleware::new(strings(&["/public"]), methods(&[]), false);
    assert!(mw.is_lax_path("/public"));
    assert!(mw.is_lax_path("/public/a/b"));
    assert!(!mw.is_lax_path("/publi"));
    assert!(!mw.is_lax_path("/"));
    assert!(!mw.is_lax_path(""));
    assert!(!mw.is_lax_path("/api/public"));
    assert!(!mw.is_lax_path("/Public/x"));
    assert!(!mw.is_lax_path("public"));
}

#[test]
fn empty_prefix_exempts_every_path() {
    let mw = AuthMiddleware::new(strings(&[""]), methods(&[]), false);
    assert!(mw.is_lax_path(""));
    assert!(mw.is_lax_path("/"));
    assert!(mw.is_lax_path("/anything/at/all"));
}

#[test]
fn lax_path_with_wide_characters() {
    let mw = AuthMiddleware::new(strings(&["/caf\u{e9}"]), methods(&[]), false);
    assert!(mw.is_lax_path("/caf\u{e9}/menu"));
    assert!(!mw.is_lax_path("/cafe/menu"));
    assert!(!mw.is_lax_path("/caf"));
}

#[test]
fn lax_method_is_bypassed_whatever_the_path() {
    let mw = AuthMiddleware::new(strings(&["/public"]), methods(&["OPTIONS", "HEAD"]), false);
    let svc = mw.new_transform(());
    for path in ["/", "/private", "/admin/users", ""] {
        for token in ["OPTIONS", "HEAD"] {
            let req = RequestHead::new(path, Method::new(token));
            assert_eq!(svc.call(&req), Step::Finish(AuthDecision::Bypassed));
        }
    }
}

#[test]
fn lax_method_match_is_exact() {
    let mw = AuthMiddleware::new(strings(&[]), methods(&["OPTIONS"]), false);
    assert!(mw.is_lax_method(&Method::new("OPTIONS")));
    assert!(!mw.is_lax_method(&Method::new("options")));
    assert!(!mw.is_lax_method(&Method::new("OPTION")));
    assert!(!mw.is_lax_method(&Method::new("OPTIONSX")));
    assert!(!mw.is_lax_method(&Method::new("GET")));
    assert!(!mw.is_lax_method(&Method::new("")));
}

#[test]
fn bypass_needs_only_one_of_path_and_method() {
    let mw = AuthMiddleware::new(strings(&["/static"]), methods(&["OPTIONS"]), false);
    assert!(mw.bypasses(&RequestHead::new("/static/app.js", Method::new("GET"))));
    assert!(mw.bypasses(&RequestHead::new("/api", Method::new("OPTIONS"))));
    assert!(mw.bypasses(&RequestHead::new("/static/app.js", Method::new("OPTIONS"))));
    assert!(!mw.bypasses(&RequestHead::new("/api", Method::new("GET"))));
}

#[test]
fn empty_rule_set_exempts_nothing() {
    let mw = AuthMiddleware::new(strings(&[]), methods(&[]), false);
    assert!(!mw.bypasses(&RequestHead::new("/", Method::new("GET"))));
    assert!(!mw.bypasses(&RequestHead::new("", Method::new("OPTIONS"))));
    assert!(!mw.is_lax_path("/public"));
    assert!(!mw.is_lax_method(&Method::new("GET")));
}

#[test]
fn bypassed_request_ignores_its_credential() {
    let mw = AuthMiddleware::new(strings(&["/public"]), methods(&[]), false)
        .with_missing_token_policy(MissingTokenPolicy::Lenient);
    let svc = mw.new_transform(());
    let with = RequestHead::new("/public/a", Method::new("GET"))
        .with_header("Authorization", "good-token")
        .with_cookie("Authorization", "other");
    let without = RequestHead::new("/public/a", Method::new("GET"));
    assert_eq!(svc.call(&with), Step::Finish(AuthDecision::Bypassed));
    assert_eq!(svc.call(&without), Step::Finish(AuthDecision::Bypassed));
}

#[test]
fn bypassed_request_is_forwarded_unannotated() {
    let decision = AuthDecision::Bypassed;
    assert!(decision.is_forwarded());
    assert!(!decision.writes_context());
    assert_eq!(decision.rejection(), None);
    assert_eq!(
        decision.into_observed(),
        Some(auth_middleware::IdentityStatus::NotChecked)
    );
}
