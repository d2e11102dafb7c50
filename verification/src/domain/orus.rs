//! TIN-ownership verification port (ORUS).
//!
//! The live ORUS adapter is out of scope. Deployments wire
//! [`FakeOrusVerifier`] for local/dev and otherwise [`UnconfiguredOrusVerifier`],
//! which fails closed.

use vstd::prelude::*;

use crate::domain::tin::RegistrationKey;
use crate::text::{concat2, is_blank, is_blank_str, owned};

verus! {

#[derive(Clone, Copy, Debug, PartialEq, Eq, Structural)]
pub enum ProofMethod {
    /// Dev/test verifier.
    FakeOrus,
    /// Reserved for the live ORUS adapter.
    Orus,
}

/// Evidence that a principal proved control of a registration unit.
#[derive(Debug, PartialEq, Eq)]
pub struct OwnershipProof {
    pub method: ProofMethod,
    pub registration: RegistrationKey,
    pub claimant_user_id: String,
}

#[derive(Clone, Debug, PartialEq, Eq)]
pub enum OrusError {
    NotConfigured,
    Rejected { reason: String },
}

impl OrusError {
    /// Human-readable message.
    pub fn message(&self) -> (m: String)
        ensures
            m@ == match self {
                OrusError::NotConfigured =>
                    "ORUS TIN verification is not configured (enable ORUS_FAKE_VERIFIER for local)"@,
                OrusError::Rejected { reason } => "TIN ownership was not verified: "@ + reason@,
            },
    {
        match self {
            OrusError::NotConfigured => owned(
                "ORUS TIN verification is not configured (enable ORUS_FAKE_VERIFIER for local)",
            ),
            OrusError::Rejected { reason } => concat2(
                "TIN ownership was not verified: ",
                reason.as_str(),
            ),
        }
    }
}

pub trait TinOwnershipVerifier {
    fn verify(&self, registration: &RegistrationKey, claimant_user_id: &str) -> Result<
        OwnershipProof,
        OrusError,
    >;
}

/// Always-succeed local verifier. Never use in production.
#[derive(Clone, Debug, Default)]
pub struct FakeOrusVerifier;

impl TinOwnershipVerifier for FakeOrusVerifier {
    fn verify(&self, registration: &RegistrationKey, claimant_user_id: &str) -> (res: Result<
        OwnershipProof,
        OrusError,
    >)
        ensures
            res is Ok <==> !is_blank(claimant_user_id@),
            res matches Ok(p) ==> p.method == ProofMethod::FakeOrus && p.registration@
                == registration@ && p.claimant_user_id@ == claimant_user_id@,
            res matches Err(e) ==> e matches OrusError::Rejected { reason }
                && reason@ == "claimant is required"@,
    {
        if is_blank_str(claimant_user_id) {
            return Err(OrusError::Rejected { reason: owned("claimant is required") });
        }
        Ok(
            OwnershipProof {
                method: ProofMethod::FakeOrus,
                registration: registration.clone(),
                claimant_user_id: owned(claimant_user_id),
            },
        )
    }
}

/// Production placeholder — fails closed until a live adapter exists.
#[derive(Clone, Debug, Default)]
pub struct UnconfiguredOrusVerifier;

impl TinOwnershipVerifier for UnconfiguredOrusVerifier {
    fn verify(&self, registration: &RegistrationKey, claimant_user_id: &str) -> (res: Result<
        OwnershipProof,
        OrusError,
    >)
        ensures
            res matches Err(OrusError::NotConfigured),
    {
        Err(OrusError::NotConfigured)
    }
}

} // verus!
