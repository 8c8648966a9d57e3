//! Raw signature validators for the ECDSA algorithms, backed by OpenSSL.

use vstd::prelude::*;
use crate::crypto_library::{
    digest_sha256, digest_sha384, digest_sha512, ec_kind, error_text, key_kind,
    public_key_from_der, verifier_with_digest, verify_oneshot,
};
use crate::ecdsa_signature::{raw_to_der, scalar_len_spec};
use crate::raw_signature::{RawSignatureValidationError, SigningAlg};
use crate::validator::{key_kind_result, verification_result};

verus! {

/// Validates raw signatures made with elliptic curve keys.
#[derive(Clone, Copy, Debug, PartialEq, Eq, Structural)]
pub enum EcdsaValidator {
    /// ECDSA with SHA-256.
    Es256,
    /// ECDSA with SHA-384.
    Es384,
    /// ECDSA with SHA-512.
    Es512,
}

impl EcdsaValidator {
    /// The algorithm that `self` validates.
    pub open spec fn alg_spec(self) -> SigningAlg {
        match self {
            EcdsaValidator::Es256 => SigningAlg::Es256,
            EcdsaValidator::Es384 => SigningAlg::Es384,
            EcdsaValidator::Es512 => SigningAlg::Es512,
        }
    }

    /// The length of every raw signature that `self` takes: twice the field
    /// size of its curve.
    pub open spec fn signature_len_spec(self) -> nat {
        2 * scalar_len_spec(self.alg_spec()).unwrap()
    }

    /// The algorithm that `self` validates.
    pub fn alg(&self) -> (alg: SigningAlg)
        ensures
            alg == self.alg_spec(),
    {
        match self {
            EcdsaValidator::Es256 => SigningAlg::Es256,
            EcdsaValidator::Es384 => SigningAlg::Es384,
            EcdsaValidator::Es512 => SigningAlg::Es512,
        }
    }

    /// Confirms that `sig`, a raw signature, is the signature of `data` under
    /// `public_key`, a DER-encoded SubjectPublicKeyInfo.
    ///
    /// A signature whose length is not twice the curve's field size is
    /// malformed, and nothing else is: a well-formed signature is never
    /// reported as invalid, whatever bytes it holds. A key that cannot be
    /// parsed, or is not an elliptic curve key, is an invalid public key.
    /// Past that the cryptography library decides between success, a
    /// mismatch and an error of its own.
    pub fn validate(&self, sig: &[u8], data: &[u8], public_key: &[u8]) -> (r: Result<
        (),
        RawSignatureValidationError,
    >)
        ensures
            sig@.len() != self.signature_len_spec() <==> r is Err
                && r.unwrap_err() is InvalidSignature,
            r matches Err(e) ==> {
                ||| e is InvalidSignature
                ||| e is InvalidPublicKey
                ||| e is SignatureMismatch
                ||| e is CryptoLibraryError
            },
    {
        let der = match raw_to_der(sig, self.alg()) {
            Ok(der) => der,
            Err(_) => {
                return Err(RawSignatureValidationError::InvalidSignature);
            },
        };
        let key = match public_key_from_der(public_key) {
            Ok(key) => key,
            Err(_) => {
                return Err(RawSignatureValidationError::InvalidPublicKey);
            },
        };
        if let Err(e) = key_kind_result(key_kind(&key), ec_kind()) {
            return Err(e);
        }
        let digest = match self {
            EcdsaValidator::Es256 => digest_sha256(),
            EcdsaValidator::Es384 => digest_sha384(),
            EcdsaValidator::Es512 => digest_sha512(),
        };
        let mut verifier = match verifier_with_digest(digest, &key) {
            Ok(verifier) => verifier,
            Err(err) => {
                return Err(RawSignatureValidationError::CryptoLibraryError(error_text(&err)));
            },
        };
        verification_result(verify_oneshot(&mut verifier, der.as_slice(), data))
    }
}

} // verus!
