//! The calls into OpenSSL. Of the functions that make them nothing is proved:
//! each states what the library's documentation and source give, and no more.
//! What OpenSSL returns depends on the version installed, so no result is
//! given a name; callers are verified for every outcome.
//!
//! OpenSSL is not safely reentrant. Whoever calls into this crate from more
//! than one thread serialises the calls.

use vstd::prelude::*;
use crate::raw_signature::DigestAlg;
use openssl::error::ErrorStack;
use openssl::hash::MessageDigest;
use openssl::pkey::{Id, PKey, Private, Public};
use openssl::rsa::Padding;
use openssl::sign::{RsaPssSaltlen, Signer, Verifier};
use openssl::x509::{X509NameRef, X509};

verus! {

/// `openssl::error::ErrorStack`, the errors that OpenSSL had queued.
#[verifier::external_type_specification]
#[verifier::external_body]
pub struct ExErrorStack(ErrorStack);

/// `openssl::x509::X509`, a parsed certificate.
#[verifier::external_type_specification]
#[verifier::external_body]
pub struct ExX509(X509);

/// `openssl::x509::X509NameRef`, a name inside a certificate.
#[verifier::external_type_specification]
#[verifier::external_body]
pub struct ExX509NameRef(X509NameRef);

/// `openssl::pkey::Private`, the marker of a key with a private part.
#[verifier::external_type_specification]
#[verifier::external_body]
pub struct ExPrivate(Private);

/// `openssl::pkey::Public`, the marker of a key with a public part only.
#[verifier::external_type_specification]
#[verifier::external_body]
pub struct ExPublic(Public);

/// `openssl::pkey::PKey`, a key of any algorithm.
#[verifier::external_type_specification]
#[verifier::external_body]
#[verifier::reject_recursive_types(T)]
pub struct ExPKey<T>(PKey<T>);

/// `openssl::sign::Signer`, a signing operation in progress.
#[verifier::external_type_specification]
#[verifier::external_body]
pub struct ExSigner<'a>(Signer<'a>);

/// `openssl::hash::MessageDigest`, a digest algorithm.
#[verifier::external_type_specification]
#[verifier::external_body]
pub struct ExMessageDigest(MessageDigest);

/// `openssl::sign::Verifier`, a verification in progress.
#[verifier::external_type_specification]
#[verifier::external_body]
pub struct ExVerifier<'a>(Verifier<'a>);

/// The longest input that OpenSSL's memory readers take.
pub const MAX_PEM_LEN: usize = 0x7fff_ffff;

/// Calls `X509::stack_from_pem`, which reads every certificate in `pem`.
/// It asserts that the input is no longer than a C `int` can count, hence
/// the bound. Nothing is claimed of the outcome.
#[verifier::external_body]
pub(crate) fn certificates_from_pem(pem: &[u8]) -> (r: Result<Vec<X509>, ErrorStack>)
    requires
        pem@.len() <= MAX_PEM_LEN,
{
    X509::stack_from_pem(pem)
}

/// Calls `X509Ref::to_der`, the certificate's DER encoding. Nothing is
/// claimed of the outcome.
#[verifier::external_body]
pub(crate) fn certificate_der(cert: &X509) -> (r: Result<Vec<u8>, ErrorStack>) {
    cert.to_der()
}

/// Calls `X509Ref::subject_name`. It asserts that the name is present, and
/// OpenSSL keeps one in every certificate it holds. Nothing is claimed of the
/// name.
#[verifier::external_body]
pub(crate) fn subject_name<'a>(cert: &'a X509) -> (name: &'a X509NameRef) {
    cert.subject_name()
}

/// Calls `X509Ref::issuer_name`. It asserts that the name is present, and
/// OpenSSL keeps one in every certificate it holds. Nothing is claimed of the
/// name.
#[verifier::external_body]
pub(crate) fn issuer_name<'a>(cert: &'a X509) -> (name: &'a X509NameRef) {
    cert.issuer_name()
}

/// Calls `X509NameRef::to_der`, the name's DER encoding. Nothing is claimed
/// of the outcome.
#[verifier::external_body]
pub(crate) fn name_der(name: &X509NameRef) -> (r: Result<Vec<u8>, ErrorStack>) {
    name.to_der()
}

/// Calls `PKey::private_key_from_pem`. It asserts that the input is no longer
/// than a C `int` can count, hence the bound. For an encrypted key OpenSSL
/// turns to its default passphrase callback. Nothing is claimed of the
/// outcome.
#[verifier::external_body]
pub(crate) fn private_key_from_pem(pem: &[u8]) -> (r: Result<PKey<Private>, ErrorStack>)
    requires
        pem@.len() <= MAX_PEM_LEN,
{
    PKey::private_key_from_pem(pem)
}

/// Calls `Signer::new_without_digest`, the only way to sign with an Ed25519
/// key. Nothing is claimed of the outcome.
#[verifier::external_body]
pub(crate) fn signer_without_digest<'a>(key: &'a PKey<Private>) -> (r: Result<
    Signer<'a>,
    ErrorStack,
>) {
    Signer::new_without_digest(key)
}

/// Calls `Signer::new`, which signs over the digest given. Nothing is claimed
/// of the outcome.
#[verifier::external_body]
pub(crate) fn signer_with_digest<'a>(digest: MessageDigest, key: &'a PKey<Private>) -> (r:
    Result<Signer<'a>, ErrorStack>) {
    Signer::new(digest, key)
}

/// Calls `Signer::set_rsa_padding` with `Padding::PKCS1_PSS`. Nothing is
/// claimed of the outcome.
#[verifier::external_body]
pub(crate) fn signer_set_pss_padding(signer: &mut Signer<'_>) -> (r: Result<(), ErrorStack>) {
    signer.set_rsa_padding(Padding::PKCS1_PSS)
}

/// Calls `Signer::set_rsa_mgf1_md`. Nothing is claimed of the outcome.
#[verifier::external_body]
pub(crate) fn signer_set_mgf1(signer: &mut Signer<'_>, digest: MessageDigest) -> (r: Result<
    (),
    ErrorStack,
>) {
    signer.set_rsa_mgf1_md(digest)
}

/// Calls `Signer::set_rsa_pss_saltlen` with `RsaPssSaltlen::DIGEST_LENGTH`.
/// Nothing is claimed of the outcome.
#[verifier::external_body]
pub(crate) fn signer_set_salt_to_digest_len(signer: &mut Signer<'_>) -> (r: Result<
    (),
    ErrorStack,
>) {
    signer.set_rsa_pss_saltlen(RsaPssSaltlen::DIGEST_LENGTH)
}

/// Calls `Signer::sign_oneshot_to_vec`, which signs `data` in one step.
/// Nothing is claimed of the outcome.
#[verifier::external_body]
pub(crate) fn sign_oneshot(signer: &mut Signer<'_>, data: &[u8]) -> (r: Result<
    Vec<u8>,
    ErrorStack,
>) {
    signer.sign_oneshot_to_vec(data)
}

/// Calls `PKey::public_key_from_der`, which reads a DER-encoded
/// SubjectPublicKeyInfo. Nothing is claimed of the outcome.
#[verifier::external_body]
pub(crate) fn public_key_from_der(der: &[u8]) -> (r: Result<PKey<Public>, ErrorStack>) {
    PKey::public_key_from_der(der)
}

/// Calls `PKeyRef::id` and hands out the identifier's number. Nothing is
/// claimed of it.
#[verifier::external_body]
pub(crate) fn key_kind(key: &PKey<Public>) -> (kind: i32) {
    key.id().as_raw()
}

/// The number of `Id::ED25519`, the identifier of Ed25519 keys. Nothing is
/// claimed of it.
#[verifier::external_body]
pub(crate) fn ed25519_kind() -> (kind: i32) {
    Id::ED25519.as_raw()
}

/// The number of `Id::EC`, the identifier of elliptic curve keys. Nothing is
/// claimed of it.
#[verifier::external_body]
pub(crate) fn ec_kind() -> (kind: i32) {
    Id::EC.as_raw()
}

/// The number of `Id::RSA`, the identifier of RSA keys. Nothing is claimed of
/// it.
#[verifier::external_body]
pub(crate) fn rsa_kind() -> (kind: i32) {
    Id::RSA.as_raw()
}

/// The number of `Id::RSA_PSS`, the identifier of RSA keys that are
/// restricted to PSS. Nothing is claimed of it.
#[verifier::external_body]
pub(crate) fn rsa_pss_kind() -> (kind: i32) {
    Id::RSA_PSS.as_raw()
}

/// Calls `PKeyRef::size`, the greatest length of a signature under the key;
/// for an RSA key, the length of its modulus. Nothing is claimed of it.
#[verifier::external_body]
pub(crate) fn key_size<T>(key: &PKey<T>) -> (size: usize) {
    key.size()
}

/// Calls `MessageDigest::sha256`. Nothing is claimed of the result.
#[verifier::external_body]
pub(crate) fn digest_sha256() -> (digest: MessageDigest) {
    MessageDigest::sha256()
}

/// Calls `MessageDigest::sha384`. Nothing is claimed of the result.
#[verifier::external_body]
pub(crate) fn digest_sha384() -> (digest: MessageDigest) {
    MessageDigest::sha384()
}

/// Calls `MessageDigest::sha512`. Nothing is claimed of the result.
#[verifier::external_body]
pub(crate) fn digest_sha512() -> (digest: MessageDigest) {
    MessageDigest::sha512()
}

/// OpenSSL's handle for `digest`. The handle is opaque, so nothing is stated
/// of it: that each digest gets its own handle is read off the three arms.
pub(crate) fn library_digest(digest: DigestAlg) -> MessageDigest {
    match digest {
        DigestAlg::Sha256 => digest_sha256(),
        DigestAlg::Sha384 => digest_sha384(),
        DigestAlg::Sha512 => digest_sha512(),
    }
}

/// Calls `Verifier::new`, which verifies over the digest given. Nothing is
/// claimed of the outcome.
#[verifier::external_body]
pub(crate) fn verifier_with_digest<'a>(digest: MessageDigest, key: &'a PKey<Public>) -> (r:
    Result<Verifier<'a>, ErrorStack>) {
    Verifier::new(digest, key)
}

/// Calls `Verifier::new_without_digest`, the only way to verify with an
/// Ed25519 key. Nothing is claimed of the outcome.
#[verifier::external_body]
pub(crate) fn verifier_without_digest<'a>(key: &'a PKey<Public>) -> (r: Result<
    Verifier<'a>,
    ErrorStack,
>) {
    Verifier::new_without_digest(key)
}

/// Calls `Verifier::set_rsa_padding` with `Padding::PKCS1_PSS`. Nothing is
/// claimed of the outcome.
#[verifier::external_body]
pub(crate) fn verifier_set_pss_padding(verifier: &mut Verifier<'_>) -> (r: Result<
    (),
    ErrorStack,
>) {
    verifier.set_rsa_padding(Padding::PKCS1_PSS)
}

/// Calls `Verifier::set_rsa_mgf1_md`. Nothing is claimed of the outcome.
#[verifier::external_body]
pub(crate) fn verifier_set_mgf1(verifier: &mut Verifier<'_>, digest: MessageDigest) -> (r: Result<
    (),
    ErrorStack,
>) {
    verifier.set_rsa_mgf1_md(digest)
}

/// Calls `Verifier::set_rsa_pss_saltlen` with `RsaPssSaltlen::DIGEST_LENGTH`.
/// Nothing is claimed of the outcome.
#[verifier::external_body]
pub(crate) fn verifier_set_salt_to_digest_len(verifier: &mut Verifier<'_>) -> (r: Result<
    (),
    ErrorStack,
>) {
    verifier.set_rsa_pss_saltlen(RsaPssSaltlen::DIGEST_LENGTH)
}

/// Calls `Verifier::verify_oneshot`, which says whether `signature` is the
/// key's signature of `data`. Nothing is claimed of the outcome.
#[verifier::external_body]
pub(crate) fn verify_oneshot(verifier: &mut Verifier<'_>, signature: &[u8], data: &[u8]) -> (r:
    Result<bool, ErrorStack>) {
    verifier.verify_oneshot(signature, data)
}

/// Calls `ErrorStack`'s `Display` through `to_string`: the queued errors,
/// separated by commas. Nothing is claimed of the text.
#[verifier::external_body]
pub(crate) fn error_text(err: &ErrorStack) -> (text: String) {
    err.to_string()
}

} // verus!
