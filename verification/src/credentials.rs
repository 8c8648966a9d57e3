//! What every raw signer holds: a private key, the certificate chain that
//! vouches for it, and where its time stamps come from.

use vstd::prelude::*;
use openssl::error::ErrorStack;
use openssl::pkey::{PKey, Private};
use openssl::x509::X509;
use crate::cert_chain::{
    chain_byte_len, chain_bytes, chain_ordered, check_chain_order, total_len, CertificateNames,
};
use crate::crypto_library::{
    certificate_der, certificates_from_pem, error_text, issuer_name, name_der,
    private_key_from_pem, subject_name, MAX_PEM_LEN,
};
use crate::raw_signature::RawSignerError;

verus! {

/// Bytes reserved for the signature itself and the headers around it.
pub const SIGNATURE_OVERHEAD: usize = 1024;

/// Bytes reserved for a time stamp token. An estimate: tokens of real time
/// stamp authorities may differ in size.
pub const TIME_STAMP_SIZE: usize = 10000;

/// What is said of a chain that is not leaf-first.
pub open spec fn chain_order_message() -> Seq<char> {
    "certificate chain in incorrect order"@
}

/// What is said of a certificate that cannot be encoded.
pub open spec fn der_encoding_message() -> Seq<char> {
    "could not encode certificate to DER"@
}

/// What is said of a chain with no certificate in it.
pub open spec fn empty_chain_message() -> Seq<char> {
    "certificate chain is empty"@
}

/// What is said of a chain too large to reserve space for.
pub open spec fn chain_size_message() -> Seq<char> {
    "certificate chain too large"@
}

/// The bytes to reserve for an envelope that carries `chain`.
pub open spec fn reserve_size_of(chain: Seq<Seq<u8>>) -> nat {
    SIGNATURE_OVERHEAD as nat + total_len(chain) + TIME_STAMP_SIZE as nat
}

/// The reserve size covers an envelope whose certificate chain is `chain`,
/// whose time stamp token is no larger than the estimate, and whose other
/// parts, the signature among them, fit the fixed overhead.
pub proof fn lemma_reserve_size_covers(chain: Seq<Seq<u8>>, token_len: nat, other_len: nat)
    requires
        token_len <= TIME_STAMP_SIZE,
        other_len <= SIGNATURE_OVERHEAD,
    ensures
        reserve_size_of(chain) >= total_len(chain) + token_len + other_len,
{
}

/// A copy of `bytes`.
fn clone_bytes(bytes: &Vec<u8>) -> (copy: Vec<u8>)
    ensures
        copy@ == bytes@,
{
    let copy = bytes.clone();
    assert(copy@ =~= bytes@);
    copy
}

/// The error that reports a failure of the cryptography library, carrying the
/// library's own text.
pub fn library_error(err: ErrorStack) -> (e: RawSignerError)
    ensures
        e is CryptoLibraryError,
{
    RawSignerError::CryptoLibraryError(error_text(&err))
}

/// What the ordering of a chain's names says of the credentials: names that
/// are leaf-first say nothing against them, any others make them invalid.
pub fn chain_order_result(names: &[CertificateNames]) -> (r: Result<(), RawSignerError>)
    ensures
        r is Ok <==> chain_ordered(names@),
        r matches Err(e) ==> e is InvalidSigningCredentials && e.detail() == chain_order_message(),
{
    if check_chain_order(names) {
        Ok(())
    } else {
        Err(
            RawSignerError::InvalidSigningCredentials(
                "certificate chain in incorrect order".to_string(),
            ),
        )
    }
}

/// What the library's reading of a private key says of the credentials: the
/// key as it came, or the library's error.
pub fn key_result(outcome: Result<PKey<Private>, ErrorStack>) -> (r: Result<
    PKey<Private>,
    RawSignerError,
>)
    ensures
        outcome is Ok <==> r is Ok,
        outcome matches Ok(key) ==> r.unwrap() == key,
        outcome is Err ==> r.unwrap_err() is CryptoLibraryError,
{
    match outcome {
        Ok(key) => Ok(key),
        Err(err) => Err(library_error(err)),
    }
}

/// The subject and issuer names of each certificate of `certs`, in order, or
/// the library's error where a name cannot be encoded. There is one pair of
/// names for each certificate, and where there is no certificate nothing can
/// fail: the names of an empty stack are the empty list.
fn names_of(certs: &Vec<X509>) -> (names: Result<Vec<CertificateNames>, RawSignerError>)
    ensures
        names matches Ok(n) ==> n@.len() == certs@.len(),
        names matches Err(e) ==> e is CryptoLibraryError,
        certs@.len() == 0 ==> names is Ok,
{
    let mut names: Vec<CertificateNames> = Vec::new();
    let mut i: usize = 0;
    while i < certs.len()
        invariant
            0 <= i <= certs@.len(),
            names@.len() == i,
        decreases certs@.len() - i,
    {
        let subject = match name_der(subject_name(&certs[i])) {
            Ok(der) => der,
            Err(err) => {
                return Err(library_error(err));
            },
        };
        let issuer = match name_der(issuer_name(&certs[i])) {
            Ok(der) => der,
            Err(err) => {
                return Err(library_error(err));
            },
        };
        names.push(CertificateNames { subject, issuer });
        i += 1;
    }
    Ok(names)
}

/// The DER encoding of each certificate of `certs`, in order, or a library
/// error, with a message of its own, where one cannot be encoded. There is
/// one encoding for each certificate, and where there is no certificate
/// nothing can fail: the encoding of an empty stack is the empty chain.
fn encode_chain(certs: &Vec<X509>) -> (chain: Result<Vec<Vec<u8>>, RawSignerError>)
    ensures
        chain matches Ok(c) ==> c@.len() == certs@.len(),
        chain matches Err(e) ==> e is CryptoLibraryError && e.detail() == der_encoding_message(),
        certs@.len() == 0 ==> chain is Ok,
{
    let mut chain: Vec<Vec<u8>> = Vec::new();
    let mut i: usize = 0;
    while i < certs.len()
        invariant
            0 <= i <= certs@.len(),
            chain@.len() == i,
        decreases certs@.len() - i,
    {
        match certificate_der(&certs[i]) {
            Ok(der) => {
                chain.push(der);
            },
            Err(_) => {
                return Err(
                    RawSignerError::CryptoLibraryError(
                        "could not encode certificate to DER".to_string(),
                    ),
                );
            },
        }
        i += 1;
    }
    Ok(chain)
}

/// A private key with the certificate chain that vouches for it.
pub struct SigningCredentials {
    cert_chain: Vec<Vec<u8>>,
    cert_chain_len: usize,
    private_key: PKey<Private>,
    time_stamp_service_url: Option<String>,
    time_stamp_size: usize,
}

impl SigningCredentials {
    /// The chain holds a certificate, its length is the one computed at
    /// construction, and the reserve size fits the machine's word.
    #[verifier::type_invariant]
    spec fn inv(self) -> bool {
        &&& self.cert_chain@.len() >= 1
        &&& self.cert_chain_len == total_len(chain_bytes(self.cert_chain@))
        &&& self.time_stamp_size == TIME_STAMP_SIZE
        &&& reserve_size_of(chain_bytes(self.cert_chain@)) <= usize::MAX
    }

    /// The DER-encoded certificates, leaf first.
    pub closed spec fn chain(self) -> Seq<Seq<u8>> {
        chain_bytes(self.cert_chain@)
    }

    /// The URL of the time stamp service, if there is one.
    pub closed spec fn url(self) -> Option<String> {
        self.time_stamp_service_url
    }

    /// The private key.
    pub closed spec fn key(self) -> PKey<Private> {
        self.private_key
    }

    /// Builds credentials from certificates that are already DER-encoded and
    /// a key that is already parsed. The order of the certificates is not
    /// looked at here. A chain with no certificate makes the credentials
    /// invalid; one whose reserve size would not fit the machine's word is an
    /// internal error; every other chain is taken as it is.
    pub fn from_der_chain_and_key(
        cert_chain: Vec<Vec<u8>>,
        private_key: PKey<Private>,
        time_stamp_service_url: Option<String>,
    ) -> (r: Result<SigningCredentials, RawSignerError>)
        ensures
            r is Ok <==> cert_chain@.len() >= 1 && reserve_size_of(chain_bytes(cert_chain@))
                <= usize::MAX,
            r matches Ok(made) ==> made.chain() == chain_bytes(cert_chain@) && made.chain().len()
                >= 1 && made.url() == time_stamp_service_url && made.key() == private_key,
            r matches Err(e) ==> if cert_chain@.len() == 0 {
                e is InvalidSigningCredentials && e.detail() == empty_chain_message()
            } else {
                e is InternalError && e.detail() == chain_size_message()
            },
    {
        if cert_chain.len() == 0 {
            return Err(
                RawSignerError::InvalidSigningCredentials("certificate chain is empty".to_string()),
            );
        }
        let fits = match chain_byte_len(&cert_chain) {
            Some(len) => if len <= usize::MAX - SIGNATURE_OVERHEAD - TIME_STAMP_SIZE {
                Some(len)
            } else {
                None
            },
            None => None,
        };
        match fits {
            Some(cert_chain_len) => Ok(
                SigningCredentials {
                    cert_chain,
                    cert_chain_len,
                    private_key,
                    time_stamp_service_url,
                    time_stamp_size: TIME_STAMP_SIZE,
                },
            ),
            None => Err(RawSignerError::InternalError("certificate chain too large".to_string())),
        }
    }

    /// Builds credentials from a PEM-encoded certificate chain and a
    /// PEM-encoded private key.
    ///
    /// The steps come in this order, and the first that fails decides. The
    /// chain is parsed and the names of its certificates are read: a failure
    /// is the cryptography library's error. The names are checked to be
    /// leaf-first: if they are not, the credentials are invalid. Each
    /// certificate is encoded to DER: a failure is a library error. The key
    /// is parsed: a failure is the library's error. A chain with no
    /// certificate makes the credentials invalid, and one too large to
    /// reserve space for is an internal error.
    ///
    /// Whether the library's steps succeed is the library's to say. On
    /// success the credentials hold at least one certificate and carry the
    /// URL they were given.
    pub fn from_cert_chain_and_private_key(
        cert_chain: &[u8],
        private_key: &[u8],
        time_stamp_service_url: Option<String>,
    ) -> (r: Result<SigningCredentials, RawSignerError>)
        requires
            cert_chain@.len() <= MAX_PEM_LEN,
            private_key@.len() <= MAX_PEM_LEN,
        ensures
            r matches Ok(made) ==> made.url() == time_stamp_service_url && made.chain().len() >= 1
                && reserve_size_of(made.chain()) <= usize::MAX,
            r matches Err(e) ==> {
                ||| e is CryptoLibraryError
                ||| e is InvalidSigningCredentials && e.detail() == chain_order_message()
                ||| e is InvalidSigningCredentials && e.detail() == empty_chain_message()
                ||| e is InternalError && e.detail() == chain_size_message()
            },
    {
        let certs = match certificates_from_pem(cert_chain) {
            Ok(certs) => certs,
            Err(err) => {
                return Err(library_error(err));
            },
        };
        let names = match names_of(&certs) {
            Ok(names) => names,
            Err(e) => {
                return Err(e);
            },
        };
        if let Err(e) = chain_order_result(names.as_slice()) {
            return Err(e);
        }
        let chain = match encode_chain(&certs) {
            Ok(chain) => chain,
            Err(e) => {
                return Err(e);
            },
        };
        let key = match key_result(private_key_from_pem(private_key)) {
            Ok(key) => key,
            Err(e) => {
                return Err(e);
            },
        };
        SigningCredentials::from_der_chain_and_key(chain, key, time_stamp_service_url)
    }

    /// The private key that the credentials were built with.
    pub(crate) fn private_key(&self) -> (key: &PKey<Private>)
        ensures
            *key == self.key(),
    {
        &self.private_key
    }

    /// The number of bytes to reserve for an envelope signed with these
    /// credentials: the overhead of the signature, the certificate chain, and
    /// the estimate for a time stamp token.
    pub fn reserve_size(&self) -> (size: usize)
        ensures
            size == reserve_size_of(self.chain()),
    {
        proof {
            use_type_invariant(self);
        }
        SIGNATURE_OVERHEAD + self.cert_chain_len + self.time_stamp_size
    }

    /// A copy of the certificates, DER-encoded and leaf first. There is at
    /// least one.
    pub fn cert_chain(&self) -> (r: Result<Vec<Vec<u8>>, RawSignerError>)
        ensures
            r is Ok,
            chain_bytes(r.unwrap()@) == self.chain(),
            r.unwrap()@.len() >= 1,
    {
        proof {
            use_type_invariant(self);
        }
        let mut copy: Vec<Vec<u8>> = Vec::new();
        let mut i: usize = 0;
        while i < self.cert_chain.len()
            invariant
                0 <= i <= self.cert_chain@.len(),
                copy@.len() == i,
                forall|j: int| 0 <= j < i ==> copy@[j]@ == self.cert_chain@[j]@,
            decreases self.cert_chain@.len() - i,
        {
            copy.push(clone_bytes(&self.cert_chain[i]));
            i += 1;
        }
        assert(chain_bytes(copy@) =~= chain_bytes(self.cert_chain@));
        Ok(copy)
    }

    /// The URL of the time stamp service, if there is one.
    pub fn time_stamp_service_url(&self) -> (url: Option<String>)
        ensures
            url == self.url(),
    {
        match &self.time_stamp_service_url {
            Some(url) => Some(url.clone()),
            None => None,
        }
    }
}

} // verus!
