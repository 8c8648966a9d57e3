//! A raw signer for Ed25519 keys, backed by OpenSSL.

use vstd::prelude::*;
use openssl::error::ErrorStack;
use openssl::pkey::{PKey, Private};
use crate::cert_chain::chain_bytes;
use crate::credentials::{
    chain_order_message, chain_size_message, empty_chain_message, library_error, reserve_size_of,
    SigningCredentials,
};
use crate::crypto_library::{sign_oneshot, signer_without_digest, MAX_PEM_LEN};
use crate::ed25519_validator::ED25519_SIGNATURE_LEN;
use crate::raw_signature::{RawSignerError, SigningAlg};

verus! {

/// What is said of a signature that has not the length of the algorithm.
pub open spec fn signature_len_message() -> Seq<char> {
    "signature is not 64 bytes long"@
}

/// What `sign` returns for each outcome of the library's signing call: the
/// signature as it came, where it has the length of an Ed25519 signature; an
/// internal error where it has another, as a key of another algorithm would
/// give; or the library's error.
pub fn ed25519_signature_result(outcome: Result<Vec<u8>, ErrorStack>) -> (r: Result<
    Vec<u8>,
    RawSignerError,
>)
    ensures
        match outcome {
            Ok(sig) => if sig@.len() == ED25519_SIGNATURE_LEN {
                r == Ok::<Vec<u8>, RawSignerError>(sig)
            } else {
                r is Err && r.unwrap_err() is InternalError && r.unwrap_err().detail()
                    == signature_len_message()
            },
            Err(_) => r is Err && r.unwrap_err() is CryptoLibraryError,
        },
{
    match outcome {
        Ok(sig) => if sig.len() == ED25519_SIGNATURE_LEN {
            Ok(sig)
        } else {
            Err(RawSignerError::InternalError("signature is not 64 bytes long".to_string()))
        },
        Err(err) => Err(library_error(err)),
    }
}

/// A raw signer that holds an Ed25519 private key and the certificate chain
/// that vouches for it.
pub struct Ed25519Signer {
    credentials: SigningCredentials,
}

impl Ed25519Signer {
    /// The DER-encoded certificates of the signer, leaf first.
    pub closed spec fn chain(self) -> Seq<Seq<u8>> {
        self.credentials.chain()
    }

    /// The URL of the signer's time stamp service, if it has one.
    pub closed spec fn url(self) -> Option<String> {
        self.credentials.url()
    }

    /// The signer that holds `credentials`.
    pub fn from_credentials(credentials: SigningCredentials) -> (signer: Ed25519Signer)
        ensures
            signer.chain() == credentials.chain(),
            signer.url() == credentials.url(),
    {
        Ed25519Signer { credentials }
    }

    /// Builds a signer from certificates that are already DER-encoded and a
    /// key that is already parsed. The order of the certificates is not
    /// looked at here. A chain with no certificate makes the credentials
    /// invalid; one whose reserve size would not fit the machine's word is an
    /// internal error; every other chain is taken as it is.
    pub fn from_der_chain_and_key(
        cert_chain: Vec<Vec<u8>>,
        private_key: PKey<Private>,
        time_stamp_service_url: Option<String>,
    ) -> (r: Result<Ed25519Signer, RawSignerError>)
        ensures
            r is Ok <==> cert_chain@.len() >= 1 && reserve_size_of(chain_bytes(cert_chain@))
                <= usize::MAX,
            r matches Ok(signer) ==> signer.chain() == chain_bytes(cert_chain@)
                && signer.chain().len() >= 1 && signer.url() == time_stamp_service_url,
            r matches Err(e) ==> if cert_chain@.len() == 0 {
                e is InvalidSigningCredentials && e.detail() == empty_chain_message()
            } else {
                e is InternalError && e.detail() == chain_size_message()
            },
    {
        match SigningCredentials::from_der_chain_and_key(
            cert_chain,
            private_key,
            time_stamp_service_url,
        ) {
            Ok(credentials) => Ok(Ed25519Signer::from_credentials(credentials)),
            Err(e) => Err(e),
        }
    }

    /// Builds a signer from a PEM-encoded certificate chain and a PEM-encoded
    /// private key, as `SigningCredentials::from_cert_chain_and_private_key`
    /// builds the credentials.
    ///
    /// Whether a step succeeds is the cryptography library's to say. Whatever
    /// it says, a failure is one of these: the library's error; invalid
    /// credentials, where the chain is not leaf-first or holds no
    /// certificate; or an internal error where the chain is too large. On
    /// success the signer holds at least one certificate and carries the URL
    /// it was given.
    pub fn from_cert_chain_and_private_key(
        cert_chain: &[u8],
        private_key: &[u8],
        time_stamp_service_url: Option<String>,
    ) -> (r: Result<Ed25519Signer, RawSignerError>)
        requires
            cert_chain@.len() <= MAX_PEM_LEN,
            private_key@.len() <= MAX_PEM_LEN,
        ensures
            r matches Ok(signer) ==> signer.url() == time_stamp_service_url && signer.chain().len()
                >= 1 && reserve_size_of(signer.chain()) <= usize::MAX,
            r matches Err(e) ==> {
                ||| e is CryptoLibraryError
                ||| e is InvalidSigningCredentials && e.detail() == chain_order_message()
                ||| e is InvalidSigningCredentials && e.detail() == empty_chain_message()
                ||| e is InternalError && e.detail() == chain_size_message()
            },
    {
        match SigningCredentials::from_cert_chain_and_private_key(
            cert_chain,
            private_key,
            time_stamp_service_url,
        ) {
            Ok(credentials) => Ok(Ed25519Signer::from_credentials(credentials)),
            Err(e) => Err(e),
        }
    }

    /// Signs `data` with the signer's key and returns the raw signature,
    /// which is 64 bytes long. A failure is the cryptography library's error,
    /// or an internal error where the library returned what has not the
    /// length of an Ed25519 signature.
    pub fn sign(&self, data: &[u8]) -> (r: Result<Vec<u8>, RawSignerError>)
        ensures
            r matches Ok(sig) ==> Some(sig@.len()) == SigningAlg::Ed25519.raw_signature_len_spec(),
            r matches Err(e) ==> e is CryptoLibraryError || (e is InternalError && e.detail()
                == signature_len_message()),
    {
        let mut signer = match signer_without_digest(self.credentials.private_key()) {
            Ok(signer) => signer,
            Err(err) => {
                return Err(library_error(err));
            },
        };
        ed25519_signature_result(sign_oneshot(&mut signer, data))
    }

    /// The algorithm of the signer.
    pub fn alg(&self) -> (alg: SigningAlg)
        ensures
            alg == SigningAlg::Ed25519,
    {
        SigningAlg::Ed25519
    }

    /// The number of bytes to reserve for an envelope signed by this signer:
    /// the overhead of the signature, the certificate chain, and the estimate
    /// for a time stamp token.
    pub fn reserve_size(&self) -> (size: usize)
        ensures
            size == reserve_size_of(self.chain()),
    {
        self.credentials.reserve_size()
    }

    /// A copy of the signer's certificates, DER-encoded and leaf first. There
    /// is at least one.
    pub fn cert_chain(&self) -> (r: Result<Vec<Vec<u8>>, RawSignerError>)
        ensures
            r is Ok,
            chain_bytes(r.unwrap()@) == self.chain(),
            r.unwrap()@.len() >= 1,
    {
        self.credentials.cert_chain()
    }

    /// The URL of the signer's time stamp service, if it has one.
    pub fn time_stamp_service_url(&self) -> (url: Option<String>)
        ensures
            url == self.url(),
    {
        self.credentials.time_stamp_service_url()
    }
}

} // verus!
