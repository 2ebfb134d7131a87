//! The authenticated principal, as the identity service describes it.
//!
//! The interceptor never interprets these records: it receives one, carries
//! it and hands it to the downstream handler.

use chrono::NaiveDateTime;
use vstd::prelude::*;

verus! {

/// `chrono::NaiveDateTime`, a calendar date and time without a zone. The
/// interceptor passes such values on and never looks inside one, so nothing
/// is claimed of them.
#[verifier::external_type_specification]
#[verifier::external_body]
pub struct ExNaiveDateTime(chrono::NaiveDateTime);

/// A point balance, held as the bit pattern of an IEEE-754 double so that
/// the value the identity service sent comes out unchanged.
#[derive(Debug, Clone, Copy, PartialEq, Eq)]
pub struct Points {
    pub bits: u64,
}

impl Points {
    /// The balance with the given bit pattern.
    pub fn from_bits(bits: u64) -> (points: Points)
        ensures
            points.bits == bits,
    {
        Points { bits }
    }

    /// The bit pattern of the balance.
    pub fn to_bits(&self) -> (bits: u64)
        ensures
            bits == self.bits,
    {
        self.bits
    }
}

/// The profile that the identity service returns for a valid credential.
#[derive(Debug, Clone, PartialEq, Eq)]
pub struct RemoteUser {
    pub id: String,
    pub created_at: Option<NaiveDateTime>,
    pub deleted_at: Option<NaiveDateTime>,
    pub updated_at: Option<NaiveDateTime>,
    pub enabled: Option<bool>,
    pub mobile: Option<String>,
    pub phone_verified: Option<bool>,
    pub username: String,
    pub referral_code_id: Option<String>,
    pub available_points: Points,
}

/// What a downstream handler learns about the caller of a request.
#[derive(Debug, Clone, PartialEq, Eq)]
pub enum IdentityStatus {
    /// The request was exempt, and nobody looked at its credential.
    NotChecked,
    /// The credential was looked at and no identity stands behind it.
    CheckedAbsent,
    /// The credential was looked at and belongs to this principal.
    CheckedPresent(RemoteUser),
}

} // verus!
