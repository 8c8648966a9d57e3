//! A raw signer for RSA keys with PSS padding, backed by OpenSSL.

use vstd::prelude::*;
use openssl::error::ErrorStack;
use crate::cert_chain::chain_bytes;
use crate::credentials::{library_error, reserve_size_of, SigningCredentials};
use crate::crypto_library::{
    key_size, library_digest, sign_oneshot, signer_set_mgf1, signer_set_pss_padding,
    signer_set_salt_to_digest_len, signer_with_digest,
};
use crate::raw_signature::{AlgFamily, DigestAlg, RawSignerError, SigningAlg};

verus! {

/// What is said when a signer is asked for with an algorithm that is not
/// RSA-PSS.
pub open spec fn not_rsa_pss_message() -> Seq<char> {
    "not an RSA-PSS algorithm"@
}

/// What is said of a signature that is not as long as the key's modulus.
pub open spec fn modulus_len_message() -> Seq<char> {
    "signature is not as long as the modulus"@
}

/// What `sign` returns for each outcome of the library's signing call, under
/// a key whose modulus has `modulus_len` bytes: the signature as it came,
/// where it is as long as the modulus; an internal error where it is not; or
/// the library's error.
pub fn rsa_signature_result(outcome: Result<Vec<u8>, ErrorStack>, modulus_len: usize) -> (r:
    Result<Vec<u8>, RawSignerError>)
    ensures
        match outcome {
            Ok(sig) => if sig@.len() == modulus_len {
                r == Ok::<Vec<u8>, RawSignerError>(sig)
            } else {
                r is Err && r.unwrap_err() is InternalError && r.unwrap_err().detail()
                    == modulus_len_message()
            },
            Err(_) => r is Err && r.unwrap_err() is CryptoLibraryError,
        },
{
    match outcome {
        Ok(sig) => if sig.len() == modulus_len {
            Ok(sig)
        } else {
            Err(
                RawSignerError::InternalError(
                    "signature is not as long as the modulus".to_string(),
                ),
            )
        },
        Err(err) => Err(library_error(err)),
    }
}

/// A raw signer that holds an RSA private key and the certificate chain that
/// vouches for it. It signs with PSS padding, the mask generation function
/// over the algorithm's digest, and a salt as long as that digest.
pub struct RsaSigner {
    alg: SigningAlg,
    credentials: SigningCredentials,
}

impl RsaSigner {
    /// The signer's algorithm is one of RSA-PSS.
    #[verifier::type_invariant]
    spec fn inv(self) -> bool {
        self.alg.family_spec() == AlgFamily::RsaPss
    }

    /// The algorithm of the signer.
    pub closed spec fn alg_spec(self) -> SigningAlg {
        self.alg
    }

    /// The DER-encoded certificates of the signer, leaf first.
    pub closed spec fn chain(self) -> Seq<Seq<u8>> {
        self.credentials.chain()
    }

    /// The URL of the signer's time stamp service, if it has one.
    pub closed spec fn url(self) -> Option<String> {
        self.credentials.url()
    }

    /// The signer for `alg` that holds `credentials`. Fails, with an internal
    /// error, exactly when `alg` is not an RSA-PSS algorithm.
    pub fn from_credentials(credentials: SigningCredentials, alg: SigningAlg) -> (r: Result<
        RsaSigner,
        RawSignerError,
    >)
        ensures
            r is Ok <==> alg.family_spec() == AlgFamily::RsaPss,
            r matches Ok(signer) ==> signer.alg_spec() == alg && signer.chain()
                == credentials.chain() && signer.url() == credentials.url(),
            r matches Err(e) ==> e is InternalError && e.detail() == not_rsa_pss_message(),
    {
        match alg {
            SigningAlg::Ps256 | SigningAlg::Ps384 | SigningAlg::Ps512 => Ok(
                RsaSigner { alg, credentials },
            ),
            _ => Err(RawSignerError::InternalError("not an RSA-PSS algorithm".to_string())),
        }
    }

    /// Signs `data` with the signer's key and returns the raw signature,
    /// which is as long as the key's modulus. A failure is the cryptography
    /// library's error, or an internal error where the library returned what
    /// has not that length.
    pub fn sign(&self, data: &[u8]) -> (r: Result<Vec<u8>, RawSignerError>)
        ensures
            r matches Err(e) ==> e is CryptoLibraryError || (e is InternalError && e.detail()
                == modulus_len_message()),
    {
        let digest = self.digest();
        let mut signer = match signer_with_digest(
            library_digest(digest),
            self.credentials.private_key(),
        ) {
            Ok(signer) => signer,
            Err(err) => {
                return Err(library_error(err));
            },
        };
        if let Err(err) = signer_set_pss_padding(&mut signer) {
            return Err(library_error(err));
        }
        if let Err(err) = signer_set_mgf1(&mut signer, library_digest(digest)) {
            return Err(library_error(err));
        }
        if let Err(err) = signer_set_salt_to_digest_len(&mut signer) {
            return Err(library_error(err));
        }
        let modulus_len = key_size(self.credentials.private_key());
        rsa_signature_result(sign_oneshot(&mut signer, data), modulus_len)
    }

    /// The algorithm of the signer: one of RSA-PSS.
    pub fn alg(&self) -> (alg: SigningAlg)
        ensures
            alg == self.alg_spec(),
            alg.family_spec() == AlgFamily::RsaPss,
    {
        proof {
            use_type_invariant(self);
        }
        self.alg
    }

    /// The number of bytes to reserve for an envelope signed by this signer:
    /// the overhead of the signature, the certificate chain, and the estimate
    /// for a time stamp token.
    pub fn reserve_size(&self) -> (size: usize)
        ensures
            size == reserve_size_of(self.chain()),
    {
        self.credentials.reserve_size()
    }

    /// A copy of the signer's certificates, DER-encoded and leaf first. There
    /// is at least one.
    pub fn cert_chain(&self) -> (r: Result<Vec<Vec<u8>>, RawSignerError>)
        ensures
            r is Ok,
            chain_bytes(r.unwrap()@) == self.chain(),
            r.unwrap()@.len() >= 1,
    {
        self.credentials.cert_chain()
    }

    /// The URL of the signer's time stamp service, if it has one.
    pub fn time_stamp_service_url(&self) -> (url: Option<String>)
        ensures
            url == self.url(),
    {
        self.credentials.time_stamp_service_url()
    }

    /// The digest of the signer's algorithm.
    fn digest(&self) -> (digest: DigestAlg)
        ensures
            Some(digest) == self.alg_spec().digest_spec(),
    {
        proof {
            use_type_invariant(self);
        }
        match self.alg {
            SigningAlg::Ps256 => DigestAlg::Sha256,
            SigningAlg::Ps384 => DigestAlg::Sha384,
            _ => DigestAlg::Sha512,
        }
    }
}

} // verus!
