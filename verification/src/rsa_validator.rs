//! Raw signature validators for RSA with PSS padding, backed by OpenSSL.

use vstd::prelude::*;
use crate::crypto_library::{
    error_text, key_kind, key_size, library_digest, public_key_from_der, rsa_kind, rsa_pss_kind,
    verifier_set_mgf1, verifier_set_pss_padding, verifier_set_salt_to_digest_len,
    verifier_with_digest, verify_oneshot,
};
use crate::raw_signature::{DigestAlg, RawSignatureValidationError, SigningAlg};
use crate::validator::verification_result;

verus! {

/// What a parsed key and the length of a signature say before any
/// verification: a key whose kind is neither of the two kinds of RSA key is
/// an invalid public key; past that a signature that is not as long as the
/// key's modulus is malformed; past that nothing is wrong yet.
pub fn key_and_length_result(
    kind: i32,
    rsa: i32,
    rsa_pss: i32,
    modulus_len: usize,
    sig_len: usize,
) -> (r: Result<(), RawSignatureValidationError>)
    ensures
        r is Ok <==> (kind == rsa || kind == rsa_pss) && sig_len == modulus_len,
        r matches Err(e) ==> if kind != rsa && kind != rsa_pss {
            e is InvalidPublicKey
        } else {
            e is InvalidSignature
        },
{
    if kind != rsa && kind != rsa_pss {
        Err(RawSignatureValidationError::InvalidPublicKey)
    } else if sig_len != modulus_len {
        Err(RawSignatureValidationError::InvalidSignature)
    } else {
        Ok(())
    }
}

/// Validates raw signatures made with RSA keys and PSS padding.
#[derive(Clone, Copy, Debug, PartialEq, Eq, Structural)]
pub enum RsaValidator {
    /// RSASSA-PSS using SHA-256 and MGF1 with SHA-256.
    Ps256,
    /// RSASSA-PSS using SHA-384 and MGF1 with SHA-384.
    Ps384,
    /// RSASSA-PSS using SHA-512 and MGF1 with SHA-512.
    Ps512,
}

impl RsaValidator {
    /// The algorithm that `self` validates.
    pub open spec fn alg_spec(self) -> SigningAlg {
        match self {
            RsaValidator::Ps256 => SigningAlg::Ps256,
            RsaValidator::Ps384 => SigningAlg::Ps384,
            RsaValidator::Ps512 => SigningAlg::Ps512,
        }
    }

    /// The algorithm that `self` validates.
    pub fn alg(&self) -> (alg: SigningAlg)
        ensures
            alg == self.alg_spec(),
    {
        match self {
            RsaValidator::Ps256 => SigningAlg::Ps256,
            RsaValidator::Ps384 => SigningAlg::Ps384,
            RsaValidator::Ps512 => SigningAlg::Ps512,
        }
    }

    /// Confirms that `sig` is the signature of `data` under `public_key`, a
    /// DER-encoded SubjectPublicKeyInfo.
    ///
    /// A key that cannot be parsed, or is not an RSA key, is an invalid
    /// public key. A signature that is not as long as the key's modulus is
    /// malformed. Past that the cryptography library decides between
    /// success, a mismatch and an error of its own.
    pub fn validate(&self, sig: &[u8], data: &[u8], public_key: &[u8]) -> (r: Result<
        (),
        RawSignatureValidationError,
    >)
        ensures
            r matches Err(e) ==> {
                ||| e is InvalidSignature
                ||| e is InvalidPublicKey
                ||| e is SignatureMismatch
                ||| e is CryptoLibraryError
            },
    {
        let key = match public_key_from_der(public_key) {
            Ok(key) => key,
            Err(_) => {
                return Err(RawSignatureValidationError::InvalidPublicKey);
            },
        };
        if let Err(e) = key_and_length_result(
            key_kind(&key),
            rsa_kind(),
            rsa_pss_kind(),
            key_size(&key),
            sig.len(),
        ) {
            return Err(e);
        }
        let digest = self.digest();
        let mut verifier = match verifier_with_digest(library_digest(digest), &key) {
            Ok(verifier) => verifier,
            Err(err) => {
                return Err(RawSignatureValidationError::CryptoLibraryError(error_text(&err)));
            },
        };
        if let Err(err) = verifier_set_pss_padding(&mut verifier) {
            return Err(RawSignatureValidationError::CryptoLibraryError(error_text(&err)));
        }
        if let Err(err) = verifier_set_mgf1(&mut verifier, library_digest(digest)) {
            return Err(RawSignatureValidationError::CryptoLibraryError(error_text(&err)));
        }
        if let Err(err) = verifier_set_salt_to_digest_len(&mut verifier) {
            return Err(RawSignatureValidationError::CryptoLibraryError(error_text(&err)));
        }
        verification_result(verify_oneshot(&mut verifier, sig, data))
    }

    /// The digest of the validator's algorithm.
    fn digest(&self) -> (digest: DigestAlg)
        ensures
            Some(digest) == self.alg_spec().digest_spec(),
    {
        match self {
            RsaValidator::Ps256 => DigestAlg::Sha256,
            RsaValidator::Ps384 => DigestAlg::Sha384,
            RsaValidator::Ps512 => DigestAlg::Sha512,
        }
    }
}

} // verus!
