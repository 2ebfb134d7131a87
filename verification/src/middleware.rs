//! The interceptor's configuration: which requests are exempt, what happens
//! to a request without a credential, and where credentials are validated.

use vstd::prelude::*;
use crate::request::{Method, RequestHead, RequestView};
use crate::text::starts_with;

verus! {

/// Address of the identity service where none is configured.
pub const DEFAULT_API_URL: &'static str = "http://localhost:8080/api/profile";

/// Name of the setting that overrides the address of the identity service.
pub const API_URL_SETTING: &'static str = "AUTH_API_URL";

/// Bound on one validation call, in milliseconds, where none is configured.
pub const DEFAULT_TIMEOUT_MS: u64 = 5000;

/// What happens to a request that is not exempt and carries no credential.
#[derive(Debug, Clone, Copy, PartialEq, Eq)]
pub enum MissingTokenPolicy {
    /// It is rejected at once; the identity service is not asked.
    Strict,
    /// The empty credential is sent to the identity service like any other,
    /// and the request fares as one whose credential was not confirmed.
    Lenient,
}

/// Mathematical content of an [`AuthMiddleware`].
pub ghost struct Rules {
    /// Path prefixes that exempt a request.
    pub lax_paths: Seq<Seq<char>>,
    /// Methods that exempt a request.
    pub lax_methods: Seq<Seq<char>>,
    /// Whether a request whose credential was not confirmed goes on.
    pub continue_on_fail: bool,
    pub missing_token: MissingTokenPolicy,
    /// Address of the identity service.
    pub api_url: Seq<char>,
    /// Bound on one validation call, in milliseconds.
    pub timeout_ms: u64,
}

/// Some configured prefix begins `path`.
pub open spec fn path_is_lax(lax_paths: Seq<Seq<char>>, path: Seq<char>) -> bool {
    exists|i: int| 0 <= i < lax_paths.len() && (#[trigger] lax_paths[i]).is_prefix_of(path)
}

/// Some configured method is `method`.
pub open spec fn method_is_lax(lax_methods: Seq<Seq<char>>, method: Seq<char>) -> bool {
    exists|i: int| 0 <= i < lax_methods.len() && #[trigger] lax_methods[i] == method
}

impl Rules {
    /// The request is exempt from authentication: by its path or by its
    /// method, either is enough.
    pub open spec fn bypasses(self, request: RequestView) -> bool {
        path_is_lax(self.lax_paths, request.path) || method_is_lax(
            self.lax_methods,
            request.method,
        )
    }
}

/// The views of a list of strings.
pub open spec fn texts(strings: Seq<String>) -> Seq<Seq<char>> {
    strings.map_values(|s: String| s@)
}

/// The tokens of a list of methods.
pub open spec fn tokens(methods: Seq<Method>) -> Seq<Seq<char>> {
    methods.map_values(|m: Method| m@)
}

/// The address of the identity service: the configured one where there is
/// one, else [`DEFAULT_API_URL`].
pub fn resolve_api_url(configured: Option<String>) -> (url: String)
    ensures
        url@ == (match configured {
            Some(given) => given@,
            None => DEFAULT_API_URL@,
        }),
{
    match configured {
        Some(given) => given,
        None => DEFAULT_API_URL.to_owned(),
    }
}

/// Configuration of the interceptor. It does not change once it is made.
#[derive(Debug)]
pub struct AuthMiddleware {
    lax_paths: Vec<String>,
    lax_methods: Vec<Method>,
    continue_on_fail: bool,
    missing_token: MissingTokenPolicy,
    api_url: String,
    timeout_ms: u64,
}

impl View for AuthMiddleware {
    type V = Rules;

    closed spec fn view(&self) -> Rules {
        Rules {
            lax_paths: texts(self.lax_paths@),
            lax_methods: tokens(self.lax_methods@),
            continue_on_fail: self.continue_on_fail,
            missing_token: self.missing_token,
            api_url: self.api_url@,
            timeout_ms: self.timeout_ms,
        }
    }
}

impl Clone for AuthMiddleware {
    fn clone(&self) -> (copy: Self)
        ensures
            copy@ == self@,
    {
        let copy = AuthMiddleware {
            lax_paths: self.lax_paths.clone(),
            lax_methods: self.lax_methods.clone(),
            continue_on_fail: self.continue_on_fail,
            missing_token: self.missing_token,
            api_url: self.api_url.clone(),
            timeout_ms: self.timeout_ms,
        };
        assert(copy.lax_paths@ =~= self.lax_paths@);
        assert(copy.lax_methods@ =~= self.lax_methods@);
        copy
    }
}

impl AuthMiddleware {
    /// An interceptor that exempts the given path prefixes and methods. With
    /// `continue_on_fail` a request whose credential was not confirmed goes
    /// on, marked as having no identity; without it such a request is
    /// rejected. A request without a credential is rejected at once
    /// ([`MissingTokenPolicy::Strict`]), credentials are validated at
    /// [`DEFAULT_API_URL`], and a validation call may take
    /// [`DEFAULT_TIMEOUT_MS`] milliseconds.
    pub fn new(lax_paths: Vec<String>, lax_methods: Vec<Method>, continue_on_fail: bool) -> (made:
        Self)
        ensures
            made@ == (Rules {
                lax_paths: texts(lax_paths@),
                lax_methods: tokens(lax_methods@),
                continue_on_fail,
                missing_token: MissingTokenPolicy::Strict,
                api_url: DEFAULT_API_URL@,
                timeout_ms: DEFAULT_TIMEOUT_MS,
            }),
    {
        AuthMiddleware {
            lax_paths,
            lax_methods,
            continue_on_fail,
            missing_token: MissingTokenPolicy::Strict,
            api_url: DEFAULT_API_URL.to_owned(),
            timeout_ms: DEFAULT_TIMEOUT_MS,
        }
    }

    /// The same configuration with another policy for requests that carry
    /// no credential.
    pub fn with_missing_token_policy(self, policy: MissingTokenPolicy) -> (made: Self)
        ensures
            made@ == (Rules { missing_token: policy, ..self@ }),
    {
        let mut made = self;
        made.missing_token = policy;
        made
    }

    /// The same configuration with another address of the identity service.
    pub fn with_api_url(self, url: String) -> (made: Self)
        ensures
            made@ == (Rules { api_url: url@, ..self@ }),
    {
        let mut made = self;
        made.api_url = url;
        made
    }

    /// The same configuration with another bound, in milliseconds, on one
    /// validation call.
    pub fn with_timeout_ms(self, timeout_ms: u64) -> (made: Self)
        ensures
            made@ == (Rules { timeout_ms, ..self@ }),
    {
        let mut made = self;
        made.timeout_ms = timeout_ms;
        made
    }

    /// Whether a request whose credential was not confirmed goes on.
    pub fn continue_on_fail(&self) -> (flag: bool)
        ensures
            flag == self@.continue_on_fail,
    {
        self.continue_on_fail
    }

    /// What happens to a request that carries no credential.
    pub fn missing_token_policy(&self) -> (policy: MissingTokenPolicy)
        ensures
            policy == self@.missing_token,
    {
        self.missing_token
    }

    /// Address of the identity service.
    pub fn api_url(&self) -> (url: &str)
        ensures
            url@ == self@.api_url,
    {
        self.api_url.as_str()
    }

    /// Bound on one validation call, in milliseconds.
    pub fn timeout_ms(&self) -> (bound: u64)
        ensures
            bound == self@.timeout_ms,
    {
        self.timeout_ms
    }

    /// Whether some configured prefix begins `path`.
    pub fn is_lax_path(&self, path: &str) -> (lax: bool)
        ensures
            lax == path_is_lax(self@.lax_paths, path@),
    {
        let mut i: usize = 0;
        while i < self.lax_paths.len()
            invariant
                i <= self.lax_paths.len(),
                forall|k: int| 0 <= k < i ==> !(#[trigger] self@.lax_paths[k]).is_prefix_of(path@),
            decreases self.lax_paths.len() - i,
        {
            if starts_with(path, self.lax_paths[i].as_str()) {
                assert(self@.lax_paths[i as int].is_prefix_of(path@));
                return true;
            }
            i += 1;
        }
        false
    }

    /// Whether some configured method is `method`.
    pub fn is_lax_method(&self, method: &Method) -> (lax: bool)
        ensures
            lax == method_is_lax(self@.lax_methods, method@),
    {
        let mut i: usize = 0;
        while i < self.lax_methods.len()
            invariant
                i <= self.lax_methods.len(),
                forall|k: int| 0 <= k < i ==> #[trigger] self@.lax_methods[k] != method@,
            decreases self.lax_methods.len() - i,
        {
            if self.lax_methods[i].matches(method) {
                assert(self@.lax_methods[i as int] == method@);
                return true;
            }
            i += 1;
        }
        false
    }

    /// Whether the request is exempt from authentication.
    pub fn bypasses(&self, request: &RequestHead) -> (exempt: bool)
        ensures
            exempt == self@.bypasses(request@),
    {
        self.is_lax_path(request.path.as_str()) || self.is_lax_method(&request.method)
    }
}

} // verus!
