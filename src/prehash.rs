//! Binding a signature type to the one digest algorithm it prehashes with.

use crate::error::Error;
use crate::signer::DigestSigner;
use crate::verify::DigestVerifier;
use vstd::prelude::*;

verus! {

/// A signature type that signs the digest of a message rather than the
/// message, under exactly one digest algorithm, fixed with the type.
pub trait PrehashSignature {
    /// The digest algorithm bound to this signature type: an
    /// implementation of `digest::Digest`, which signing and verifying
    /// through it ask for.
    type Digest;
}

/// Sign the message absorbed by `digest`, an accumulator of the algorithm
/// bound to `S`. An accumulator of another algorithm does not type-check,
/// so a mismatch is refused before any message is hashed.
pub fn try_sign_prehashed<S: PrehashSignature, T: DigestSigner<S::Digest, S>>(
    signer: &T,
    digest: S::Digest,
) -> (r: Result<S, Error>) where S::Digest: digest::Digest
    ensures
        match r {
            Ok(sig) => signer.produces_for_digest(digest, sig),
            Err(_) => !signer.digest_sign_succeeds(digest),
        },
{
    signer.try_sign_digest(digest)
}

/// Check `signature` on the message absorbed by `digest`, an accumulator
/// of the algorithm bound to `S`; another algorithm does not type-check.
pub fn verify_prehashed<S: PrehashSignature, T: DigestVerifier<S::Digest, S>>(
    verifier: &T,
    digest: S::Digest,
    signature: &S,
) -> (r: Result<(), Error>) where S::Digest: digest::Digest
    ensures
        r is Ok <==> verifier.accepts_digest(digest, *signature),
{
    verifier.verify_digest(digest, signature)
}

} // verus!
