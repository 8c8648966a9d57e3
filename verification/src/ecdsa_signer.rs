//! A raw signer for elliptic curve keys, backed by OpenSSL.

use vstd::prelude::*;
use openssl::error::ErrorStack;
use crate::cert_chain::chain_bytes;
use crate::credentials::{library_error, reserve_size_of, SigningCredentials};
use crate::crypto_library::{
    digest_sha256, digest_sha384, digest_sha512, sign_oneshot, signer_with_digest,
};
use crate::ecdsa_signature::{der_to_raw, raw_of_der, scalar_len_spec};
use crate::raw_signature::{RawSignerError, SigningAlg};

verus! {

/// What is said when a signer is asked for with an algorithm that is not
/// ECDSA.
pub open spec fn wrong_algorithm_message() -> Seq<char> {
    "not an ECDSA algorithm"@
}

/// What is said when the library's signature is not the encoding of two
/// scalars of the curve.
pub open spec fn der_signature_message() -> Seq<char> {
    "invalid DER signature"@
}

/// The raw form for `alg` of the DER-encoded signature `der`, where `alg` is
/// an ECDSA algorithm and `der` encodes two scalars of its curve.
pub open spec fn converted(der: Seq<u8>, alg: SigningAlg) -> Option<Seq<u8>> {
    match scalar_len_spec(alg) {
        Some(width) => raw_of_der(der, width),
        None => None,
    }
}

/// What `sign` returns for each outcome of the library's signing call: the
/// raw form of the DER-encoded signature that came, an internal error where
/// what came is no signature of the algorithm's curve or the algorithm has no
/// curve, or the library's error.
pub fn raw_signature_result(outcome: Result<Vec<u8>, ErrorStack>, alg: SigningAlg) -> (r: Result<
    Vec<u8>,
    RawSignerError,
>)
    ensures
        match outcome {
            Ok(der) => match converted(der@, alg) {
                Some(raw) => r is Ok && r.unwrap()@ == raw,
                None => r is Err && r.unwrap_err() is InternalError && r.unwrap_err().detail()
                    == der_signature_message(),
            },
            Err(_) => r is Err && r.unwrap_err() is CryptoLibraryError,
        },
        r matches Ok(raw) ==> Some(raw@.len()) == alg.raw_signature_len_spec(),
{
    match outcome {
        Ok(der) => match der_to_raw(der.as_slice(), alg) {
            Ok(raw) => Ok(raw),
            Err(_) => Err(RawSignerError::InternalError("invalid DER signature".to_string())),
        },
        Err(err) => Err(library_error(err)),
    }
}

/// A raw signer that holds an elliptic curve private key and the certificate
/// chain that vouches for it.
pub struct EcdsaSigner {
    alg: SigningAlg,
    credentials: SigningCredentials,
}

impl EcdsaSigner {
    /// The signer's algorithm is one of ECDSA.
    #[verifier::type_invariant]
    spec fn inv(self) -> bool {
        scalar_len_spec(self.alg) is Some
    }

    /// The algorithm of the signer.
    pub closed spec fn alg_spec(self) -> SigningAlg {
        self.alg
    }

    /// The DER-encoded certificates of the signer, leaf first.
    pub closed spec fn chain(self) -> Seq<Seq<u8>> {
        self.credentials.chain()
    }

    /// The URL of the signer's time stamp service, if it has one.
    pub closed spec fn url(self) -> Option<String> {
        self.credentials.url()
    }

    /// The signer for `alg` that holds `credentials`. Fails, with an internal
    /// error, exactly when `alg` is not an ECDSA algorithm.
    pub fn from_credentials(credentials: SigningCredentials, alg: SigningAlg) -> (r: Result<
        EcdsaSigner,
        RawSignerError,
    >)
        ensures
            r is Ok <==> scalar_len_spec(alg) is Some,
            r matches Ok(signer) ==> signer.alg_spec() == alg && signer.chain()
                == credentials.chain() && signer.url() == credentials.url(),
            r matches Err(e) ==> e is InternalError && e.detail() == wrong_algorithm_message(),
    {
        match alg {
            SigningAlg::Es256 | SigningAlg::Es384 | SigningAlg::Es512 => Ok(
                EcdsaSigner { alg, credentials },
            ),
            _ => Err(RawSignerError::InternalError("not an ECDSA algorithm".to_string())),
        }
    }

    /// Signs `data` with the signer's key and returns the raw signature: the
    /// two scalars, each of the curve's field size. A failure is the
    /// cryptography library's error, or an internal error where the library
    /// returned what is no signature of the curve.
    pub fn sign(&self, data: &[u8]) -> (r: Result<Vec<u8>, RawSignerError>)
        ensures
            r matches Ok(sig) ==> Some(sig@.len()) == self.alg_spec().raw_signature_len_spec(),
            r matches Err(e) ==> e is CryptoLibraryError || (e is InternalError && e.detail()
                == der_signature_message()),
    {
        proof {
            use_type_invariant(self);
        }
        let digest = match self.alg {
            SigningAlg::Es256 => digest_sha256(),
            SigningAlg::Es384 => digest_sha384(),
            _ => digest_sha512(),
        };
        let mut signer = match signer_with_digest(digest, self.credentials.private_key()) {
            Ok(signer) => signer,
            Err(err) => {
                return Err(library_error(err));
            },
        };
        raw_signature_result(sign_oneshot(&mut signer, data), self.alg)
    }

    /// The algorithm of the signer: one of ECDSA.
    pub fn alg(&self) -> (alg: SigningAlg)
        ensures
            alg == self.alg_spec(),
            scalar_len_spec(alg) is Some,
    {
        proof {
            use_type_invariant(self);
        }
        self.alg
    }

    /// The number of bytes to reserve for an envelope signed by this signer:
    /// the overhead of the signature, the certificate chain, and the estimate
    /// for a time stamp token.
    pub fn reserve_size(&self) -> (size: usize)
        ensures
            size == reserve_size_of(self.chain()),
    {
        self.credentials.reserve_size()
    }

    /// A copy of the signer's certificates, DER-encoded and leaf first. There
    /// is at least one.
    pub fn cert_chain(&self) -> (r: Result<Vec<Vec<u8>>, RawSignerError>)
        ensures
            r is Ok,
            chain_bytes(r.unwrap()@) == self.chain(),
            r.unwrap()@.len() >= 1,
    {
        self.credentials.cert_chain()
    }

    /// The URL of the signer's time stamp service, if it has one.
    pub fn time_stamp_service_url(&self) -> (url: Option<String>)
        ensures
            url == self.url(),
    {
        self.credentials.time_stamp_service_url()
    }
}

} // verus!
