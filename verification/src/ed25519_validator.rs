//! A raw signature validator for Ed25519, backed by OpenSSL.

use vstd::prelude::*;
use crate::crypto_library::{
    ed25519_kind, error_text, key_kind, public_key_from_der, verifier_without_digest,
    verify_oneshot,
};
use crate::raw_signature::RawSignatureValidationError;
use crate::validator::{key_kind_result, verification_result};

verus! {

/// The length in bytes of every Ed25519 signature.
pub const ED25519_SIGNATURE_LEN: usize = 64;

/// Validates raw signatures made with Ed25519 keys.
#[derive(Debug)]
pub struct Ed25519Validator {}

impl Ed25519Validator {
    /// Confirms that `sig` is the signature of `data` under `public_key`, a
    /// DER-encoded SubjectPublicKeyInfo.
    ///
    /// A signature that is not 64 bytes long is malformed, and nothing else
    /// is: a well-formed signature is never reported as invalid, whatever
    /// bytes it holds. A key that cannot be parsed, or is not an Ed25519 key,
    /// is an invalid public key. Past that the cryptography library decides
    /// between success, a mismatch and an error of its own.
    pub fn validate(&self, sig: &[u8], data: &[u8], public_key: &[u8]) -> (r: Result<
        (),
        RawSignatureValidationError,
    >)
        ensures
            sig@.len() != ED25519_SIGNATURE_LEN <==> r is Err
                && r.unwrap_err() is InvalidSignature,
            r matches Err(e) ==> {
                ||| e is InvalidSignature
                ||| e is InvalidPublicKey
                ||| e is SignatureMismatch
                ||| e is CryptoLibraryError
            },
    {
        if sig.len() != ED25519_SIGNATURE_LEN {
            return Err(RawSignatureValidationError::InvalidSignature);
        }
        let key = match public_key_from_der(public_key) {
            Ok(key) => key,
            Err(_) => {
                return Err(RawSignatureValidationError::InvalidPublicKey);
            },
        };
        if let Err(e) = key_kind_result(key_kind(&key), ed25519_kind()) {
            return Err(e);
        }
        let mut verifier = match verifier_without_digest(&key) {
            Ok(verifier) => verifier,
            Err(err) => {
                return Err(RawSignatureValidationError::CryptoLibraryError(error_text(&err)));
            },
        };
        verification_result(verify_oneshot(&mut verifier, sig, data))
    }
}

} // verus!
