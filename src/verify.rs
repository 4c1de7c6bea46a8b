//! Checking signatures: over a message, and over a digest accumulator.

use crate::error::Error;
use vstd::prelude::*;

verus! {

/// Check signatures of type `S` on messages.
pub trait Verifier<S> {
    /// Whether `sig` is a valid signature on exactly `msg` under this key.
    spec fn accepts(&self, msg: Seq<u8>, sig: S) -> bool;

    /// Check `signature` on `msg`. Any failure (a malformed signature, a
    /// wrong key, a tampered message) gives the same opaque [`Error`].
    fn verify(&self, msg: &[u8], signature: &S) -> (r: Result<(), Error>)
        ensures
            r is Ok <==> self.accepts(msg@, *signature),
    ;
}

/// Check signatures of type `S` on the message absorbed by a digest
/// accumulator of algorithm `D`, which the verifier finalizes.
pub trait DigestVerifier<D, S> {
    /// Whether `sig` is a valid signature on the message absorbed by
    /// `digest` under this key.
    spec fn accepts_digest(&self, digest: D, sig: S) -> bool;

    /// Check `signature` on the message absorbed by `digest`.
    fn verify_digest(&self, digest: D, signature: &S) -> (r: Result<(), Error>) where
        D: digest::Digest,
        ensures
            r is Ok <==> self.accepts_digest(digest, *signature),
    ;
}

} // verus!
