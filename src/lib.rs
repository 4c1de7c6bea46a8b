//! Traits for producing and checking digital signatures, generic over the
//! signature type, with contracts that every implementation must meet.

mod encoding;
mod error;
mod keypair;
mod prehash;
mod signer;
mod verify;

pub use crate::encoding::{
    decoded, is_encoding, lemma_decode_encoding, lemma_fixed_cross_type,
    lemma_fixed_encoding_injective, lemma_fixed_is_encoding, lemma_fixed_round_trip,
    FixedSignature, SignatureBytes, SignatureEncoding,
};
pub use crate::error::Error;
pub use crate::keypair::{lemma_sign_then_verify, Keypair};
pub use crate::prehash::{try_sign_prehashed, verify_prehashed, PrehashSignature};
pub use crate::signer::{DigestSigner, RandomizedSigner, Signer};
pub use crate::verify::{DigestVerifier, Verifier};
