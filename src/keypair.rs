//! Binding a signing capability to the verifying key that checks its
//! signatures.

use crate::signer::Signer;
use crate::verify::Verifier;
use vstd::prelude::*;

verus! {

/// A signing key that owns, and can hand out, its verifying half.
///
/// Every signature that the signing half produces is accepted by the
/// verifying half, for every message.
pub trait Keypair<S>: Signer<S> {
    /// The verifying half.
    type VerifyingKey: Verifier<S> + Clone;

    /// The verifying half, as a value: a pure function of the key.
    spec fn verifying_half(&self) -> Self::VerifyingKey;

    /// Get the verifying half of this keypair.
    fn verifying_key(&self) -> (r: Self::VerifyingKey)
        ensures
            r == self.verifying_half(),
    ;

    /// What the signing half produces, the verifying half accepts.
    proof fn lemma_halves_correspond(&self, msg: Seq<u8>, sig: S)
        requires
            self.produces(msg, sig),
        ensures
            self.verifying_half().accepts(msg, sig),
    ;
}

/// For every keypair and message, a signature that signing the message
/// gives passes verification of that message under the keypair's
/// verifying key.
pub proof fn lemma_sign_then_verify<S, K: Keypair<S>>(keypair: &K, msg: Seq<u8>, sig: S)
    requires
        keypair.produces(msg, sig),
    ensures
        keypair.verifying_half().accepts(msg, sig),
{
    keypair.lemma_halves_correspond(msg, sig);
}

} // verus!
