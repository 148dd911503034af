//! The identity gate as the marketplace sees it: a token that records which
//! identity the caller has proved to control.

use vstd::prelude::*;
use crate::records::MarketError;

verus! {

/// Proof that the caller controls an identity.
///
/// The token is made once per call, by whatever authenticates callers, and is
/// handed to the operation. The marketplace does no cryptographic work: it
/// only holds the identity an operation acts for against the token.
#[derive(Debug, PartialEq, Eq)]
pub struct VerifiedIdentity {
    identity: String,
}

impl View for VerifiedIdentity {
    type V = Seq<char>;

    closed spec fn view(&self) -> Seq<char> {
        self.identity@
    }
}

impl VerifiedIdentity {
    /// A token for the identity that the caller was found to control.
    pub fn new(identity: String) -> (token: VerifiedIdentity)
        ensures
            token@ == identity@,
    {
        VerifiedIdentity { identity }
    }

    /// The identity that the caller controls.
    pub fn identity(&self) -> (identity: &String)
        ensures
            identity@ == self@,
    {
        &self.identity
    }

    /// Whether the caller controls the identity `claimed`.
    pub fn controls(&self, claimed: &String) -> (yes: bool)
        ensures
            yes == (self@ == claimed@),
    {
        self.identity == *claimed
    }
}

/// Admits a change exactly when the caller controls the identity of the
/// `actor` that the operation acts for, and refuses it as unauthorized
/// otherwise.
pub fn authorize(caller: &VerifiedIdentity, actor: &String) -> (verdict: Result<(), MarketError>)
    ensures
        verdict == if caller@ == actor@ {
            Ok::<(), MarketError>(())
        } else {
            Err::<(), MarketError>(MarketError::Unauthorized)
        },
{
    if caller.controls(actor) {
        Ok(())
    } else {
        Err(MarketError::Unauthorized)
    }
}

} // verus!
