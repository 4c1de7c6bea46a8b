//! Producing signatures: over a message, over a digest accumulator, and
//! with an explicit source of randomness.

use crate::error::Error;
use vstd::prelude::*;

verus! {

/// Sign messages, producing signatures of type `S`.
///
/// A provider may implement this for several signature types; the caller
/// picks one by the type it asks for.
pub trait Signer<S> {
    /// Whether `sig` is a signature that this signer produces for `msg`.
    spec fn produces(&self, msg: Seq<u8>, sig: S) -> bool;

    /// Whether signing `msg` cannot fail: no key, hardware or randomness
    /// fault can occur for it.
    spec fn sign_succeeds(&self, msg: Seq<u8>) -> bool;

    /// Attempt to sign `msg`, failing with the opaque [`Error`] where the
    /// algorithm or the key state cannot produce a signature.
    fn try_sign(&self, msg: &[u8]) -> (r: Result<S, Error>)
        ensures
            match r {
                Ok(sig) => self.produces(msg@, sig),
                Err(_) => !self.sign_succeeds(msg@),
            },
    ;

    /// Sign `msg` where signing is known to succeed.
    ///
    /// The precondition is this form's policy: it is only to be called
    /// where signing cannot fail, so it never hands back a bad signature.
    fn sign(&self, msg: &[u8]) -> (r: S)
        requires
            self.sign_succeeds(msg@),
        ensures
            self.produces(msg@, r),
    {
        self.try_sign(msg).unwrap()
    }
}

/// Sign the contents of a digest accumulator of algorithm `D` that the
/// caller has already fed with the message, producing signatures of type
/// `S`. The accumulator is finalized by the signer.
pub trait DigestSigner<D, S> {
    /// Whether `sig` is a signature that this signer produces for the
    /// message absorbed by `digest`.
    spec fn produces_for_digest(&self, digest: D, sig: S) -> bool;

    /// Whether signing the contents of `digest` cannot fail.
    spec fn digest_sign_succeeds(&self, digest: D) -> bool;

    /// Attempt to sign the message absorbed by `digest`.
    fn try_sign_digest(&self, digest: D) -> (r: Result<S, Error>) where D: digest::Digest
        ensures
            match r {
                Ok(sig) => self.produces_for_digest(digest, sig),
                Err(_) => !self.digest_sign_succeeds(digest),
            },
    ;

    /// Sign the message absorbed by `digest` where signing is known to
    /// succeed.
    fn sign_digest(&self, digest: D) -> (r: S) where D: digest::Digest
        requires
            self.digest_sign_succeeds(digest),
        ensures
            self.produces_for_digest(digest, r),
    {
        self.try_sign_digest(digest).unwrap()
    }
}

/// Sign messages with randomness drawn from a source that the caller hands
/// in for each call, never from hidden global state. Where the source
/// fails, signing fails with the opaque [`Error`].
pub trait RandomizedSigner<S> {
    /// Whether `sig` is a signature that this signer produces for `msg`
    /// with some draw of randomness.
    spec fn produces_randomized(&self, msg: Seq<u8>, sig: S) -> bool;

    /// Whether signing `msg` cannot fail, whatever the source yields.
    spec fn randomized_sign_succeeds(&self, msg: Seq<u8>) -> bool;

    /// Attempt to sign `msg`, drawing randomness from `rng`.
    fn try_sign_with_rng<R: rand_core::CryptoRngCore + ?Sized>(&self, rng: &mut R, msg: &[u8]) -> (r:
        Result<S, Error>)
        ensures
            match r {
                Ok(sig) => self.produces_randomized(msg@, sig),
                Err(_) => !self.randomized_sign_succeeds(msg@),
            },
    ;

    /// Sign `msg`, drawing randomness from `rng`, where signing is known
    /// to succeed.
    fn sign_with_rng<R: rand_core::CryptoRngCore + ?Sized>(&self, rng: &mut R, msg: &[u8]) -> (r: S)
        requires
            self.randomized_sign_succeeds(msg@),
        ensures
            self.produces_randomized(msg@, r),
    {
        self.try_sign_with_rng(rng, msg).unwrap()
    }
}

} // verus!
