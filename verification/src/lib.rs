//! Decision protocol of a request-authentication interceptor.
//!
//! The interceptor stands in front of a web service. For each request it
//! decides whether the caller is exempt, finds the credential, has the
//! identity service validate it, and either lets the request go on, with
//! the caller's identity attached, or answers it with a rejection.
//!
//! The crate holds the decisions and none of the traffic: the host reads
//! the request, makes the one call to the identity service and reports how
//! it ended, step by step (see [`interceptor`]).

pub mod decision;
pub mod identity;
pub mod interceptor;
pub mod laws;
pub mod middleware;
pub mod request;
pub mod text;

pub use decision::{AuthDecision, RejectReason};
pub use identity::{IdentityStatus, Points, RemoteUser};
pub use interceptor::{
    AuthMiddlewareImpl, BodyEvent, ResponseEvent, ResponseStep, Step, ValidationRequest,
};
pub use middleware::{AuthMiddleware, MissingTokenPolicy};
pub use request::{Cookie, HeaderField, Method, RequestHead};
