//! The outcome of one request's passage through the interceptor, and what
//! the host pipeline does about it.

use vstd::prelude::*;
use crate::identity::{IdentityStatus, RemoteUser};

verus! {

/// Status code of every rejection.
pub const REJECTION_STATUS: u16 = 401;

/// Body of the rejection of a request that brought no credential.
pub const MISSING_TOKEN_BODY: &'static str = "Unauthorized: missing token";

/// Body of the rejection of a request whose credential was not confirmed.
pub const INVALID_TOKEN_BODY: &'static str = "Unauthorized: invalid or expired token";

/// Why a request was turned away. Nothing else about a failure is told to
/// the client.
#[derive(Debug, Clone, Copy, PartialEq, Eq)]
pub enum RejectReason {
    /// The request carried no credential.
    MissingToken,
    /// The identity service did not confirm the credential.
    InvalidToken,
}

impl RejectReason {
    /// The plain-text body that tells the client which of the two it is.
    pub open spec fn body_text(self) -> Seq<char> {
        match self {
            RejectReason::MissingToken => MISSING_TOKEN_BODY@,
            RejectReason::InvalidToken => INVALID_TOKEN_BODY@,
        }
    }

    /// HTTP status of the rejection.
    pub fn status(&self) -> (code: u16)
        ensures
            code == REJECTION_STATUS,
    {
        REJECTION_STATUS
    }

    /// Plain-text body of the rejection.
    pub fn body(&self) -> (text: &'static str)
        ensures
            text@ == self.body_text(),
    {
        match self {
            RejectReason::MissingToken => MISSING_TOKEN_BODY,
            RejectReason::InvalidToken => INVALID_TOKEN_BODY,
        }
    }
}

/// What the interceptor decided about one request.
#[derive(Debug, Clone, PartialEq, Eq)]
pub enum AuthDecision {
    /// A bypass rule exempts the request: it goes on as it came.
    Bypassed,
    /// The identity service confirmed the credential: the request goes on
    /// with this identity attached.
    Authenticated(RemoteUser),
    /// The credential was not confirmed and the interceptor is set to go
    /// on all the same: the request goes on, marked as having no identity.
    AuthenticatedAnonymous,
    /// The request is answered with a rejection and goes no further.
    Rejected(RejectReason),
}

impl AuthDecision {
    /// The request reaches the downstream handler.
    pub open spec fn forwards(self) -> bool {
        !(self is Rejected)
    }

    /// The interceptor writes an entry into the request's context.
    pub open spec fn attaches(self) -> bool {
        self is Authenticated || self is AuthenticatedAnonymous
    }

    /// What the downstream handler finds out about the caller; `None` where
    /// the handler never runs.
    pub open spec fn observed(self) -> Option<IdentityStatus> {
        match self {
            AuthDecision::Bypassed => Some(IdentityStatus::NotChecked),
            AuthDecision::Authenticated(user) => Some(IdentityStatus::CheckedPresent(user)),
            AuthDecision::AuthenticatedAnonymous => Some(IdentityStatus::CheckedAbsent),
            AuthDecision::Rejected(_) => None,
        }
    }

    /// Whether the request reaches the downstream handler.
    pub fn is_forwarded(&self) -> (yes: bool)
        ensures
            yes == self.forwards(),
    {
        match self {
            AuthDecision::Rejected(_) => false,
            _ => true,
        }
    }

    /// Whether the interceptor writes an entry into the request's context
    /// before it forwards the request.
    pub fn writes_context(&self) -> (yes: bool)
        ensures
            yes == self.attaches(),
    {
        match self {
            AuthDecision::Authenticated(_) => true,
            AuthDecision::AuthenticatedAnonymous => true,
            _ => false,
        }
    }

    /// The reason of a rejection; `None` for a request that goes on.
    pub fn rejection(&self) -> (reason: Option<RejectReason>)
        ensures
            reason == (match *self {
                AuthDecision::Rejected(why) => Some(why),
                _ => None,
            }),
    {
        match self {
            AuthDecision::Rejected(why) => Some(*why),
            _ => None,
        }
    }

    /// What the downstream handler finds out about the caller; `None` where
    /// the handler never runs.
    pub fn into_observed(self) -> (status: Option<IdentityStatus>)
        ensures
            status == self.observed(),
    {
        match self {
            AuthDecision::Bypassed => Some(IdentityStatus::NotChecked),
            AuthDecision::Authenticated(user) => Some(IdentityStatus::CheckedPresent(user)),
            AuthDecision::AuthenticatedAnonymous => Some(IdentityStatus::CheckedAbsent),
            AuthDecision::Rejected(_) => None,
        }
    }
}

} // verus!
