//! The validator of each signing algorithm.

use vstd::prelude::*;
use openssl::error::ErrorStack;
use crate::crypto_library::error_text;
use crate::ecdsa_validator::EcdsaValidator;
use crate::ed25519_validator::Ed25519Validator;
use crate::raw_signature::{RawSignatureValidationError, SigningAlg};
use crate::rsa_validator::RsaValidator;

verus! {

/// What validation returns for each outcome of the library's verification:
/// success where the library confirms the signature, a mismatch where it
/// denies it, and the library's error where it could not tell.
pub fn verification_result(outcome: Result<bool, ErrorStack>) -> (r: Result<
    (),
    RawSignatureValidationError,
>)
    ensures
        match outcome {
            Ok(true) => r is Ok,
            Ok(false) => r is Err && r.unwrap_err() is SignatureMismatch,
            Err(_) => r is Err && r.unwrap_err() is CryptoLibraryError,
        },
{
    match outcome {
        Ok(true) => Ok(()),
        Ok(false) => Err(RawSignatureValidationError::SignatureMismatch),
        Err(err) => Err(RawSignatureValidationError::CryptoLibraryError(error_text(&err))),
    }
}

/// What the kind of a parsed key says before any verification: a key of the
/// kind that the algorithm wants is taken, and a key of any other kind is an
/// invalid public key.
pub fn key_kind_result(kind: i32, wanted: i32) -> (r: Result<(), RawSignatureValidationError>)
    ensures
        r is Ok <==> kind == wanted,
        r matches Err(e) ==> e is InvalidPublicKey,
{
    if kind == wanted {
        Ok(())
    } else {
        Err(RawSignatureValidationError::InvalidPublicKey)
    }
}

/// A validator of raw signatures, of whichever algorithm.
#[derive(Debug)]
pub enum RawSignatureValidator {
    /// For the ECDSA algorithms.
    Ecdsa(EcdsaValidator),
    /// For Ed25519.
    Ed25519(Ed25519Validator),
    /// For the RSA-PSS algorithms.
    Rsa(RsaValidator),
}

impl RawSignatureValidator {
    /// The algorithm that `self` validates.
    pub open spec fn alg_spec(self) -> SigningAlg {
        match self {
            RawSignatureValidator::Ecdsa(v) => v.alg_spec(),
            RawSignatureValidator::Ed25519(_) => SigningAlg::Ed25519,
            RawSignatureValidator::Rsa(v) => v.alg_spec(),
        }
    }

    /// Confirms that `sig` is the signature of `data` under `public_key`, a
    /// DER-encoded SubjectPublicKeyInfo, by the rules of the validator's
    /// algorithm. Where the algorithm fixes the length of its signatures, a
    /// signature is malformed exactly when it has not that length; one of
    /// that length is valid, mismatched or the victim of an invalid key or a
    /// library error, never malformed.
    pub fn validate(&self, sig: &[u8], data: &[u8], public_key: &[u8]) -> (r: Result<
        (),
        RawSignatureValidationError,
    >)
        ensures
            self.alg_spec().raw_signature_len_spec() matches Some(len) ==> (sig@.len() != len
                <==> r is Err && r.unwrap_err() is InvalidSignature),
            r matches Err(e) ==> {
                ||| e is InvalidSignature
                ||| e is InvalidPublicKey
                ||| e is SignatureMismatch
                ||| e is CryptoLibraryError
            },
    {
        match self {
            RawSignatureValidator::Ecdsa(v) => v.validate(sig, data, public_key),
            RawSignatureValidator::Ed25519(v) => v.validate(sig, data, public_key),
            RawSignatureValidator::Rsa(v) => v.validate(sig, data, public_key),
        }
    }
}

/// The validator for `alg`. Every algorithm has one: the error is for builds
/// that leave an algorithm out, and this one leaves none.
pub fn validator_for_signing_alg(alg: SigningAlg) -> (r: Result<
    RawSignatureValidator,
    RawSignatureValidationError,
>)
    ensures
        r is Ok,
        r.unwrap().alg_spec() == alg,
{
    match alg {
        SigningAlg::Es256 => Ok(RawSignatureValidator::Ecdsa(EcdsaValidator::Es256)),
        SigningAlg::Es384 => Ok(RawSignatureValidator::Ecdsa(EcdsaValidator::Es384)),
        SigningAlg::Es512 => Ok(RawSignatureValidator::Ecdsa(EcdsaValidator::Es512)),
        SigningAlg::Ed25519 => Ok(RawSignatureValidator::Ed25519(Ed25519Validator {  })),
        SigningAlg::Ps256 => Ok(RawSignatureValidator::Rsa(RsaValidator::Ps256)),
        SigningAlg::Ps384 => Ok(RawSignatureValidator::Rsa(RsaValidator::Ps384)),
        SigningAlg::Ps512 => Ok(RawSignatureValidator::Rsa(RsaValidator::Ps512)),
    }
}

} // verus!
