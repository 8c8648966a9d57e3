use c2pa_crypto::credentials::{
    chain_order_result, key_result, library_error, SigningCredentials, SIGNATURE_OVERHEAD,
    TIME_STAMP_SIZE,
};
use c2pa_crypto::ecdsa_signer::{raw_signature_result, EcdsaSigner};
use c2pa_crypto::ed25519_signer::{ed25519_signature_result, Ed25519Signer};
use c2pa_crypto::raw_signature::RawSignatureValidationError;
use c2pa_crypto::rsa_signer::{rsa_signature_result, RsaSigner};
use c2pa_crypto::validator::validator_for_signing_alg;
use c2pa_crypto::cert_chain::CertificateNames;
use c2pa_crypto::raw_signature::{RawSignerError, SigningAlg};
use openssl::asn1::Asn1Time;
use openssl::bn::BigNum;
use openssl::ec::{EcGroup, EcKey};
use openssl::error::ErrorStack;
use openssl::hash::MessageDigest;
use openssl::nid::Nid;
use openssl::pkey::{Id, PKey, Private};
use openssl::rsa::Rsa;
use openssl::sign::Verifier;
use openssl::x509::{X509NameBuilder, X509};

const SAMPLE_DATA: &[u8] = b"some sample content to sign";

fn ec_key() -> PKey<Private> {
    let group = EcGroup::from_curve_name(Nid::X9_62_PRIME256V1).unwrap();
    PKey::from_ec_key(EcKey::generate(&group).unwrap()).unwrap()
}

fn certificate(
    subject: &str,
    issuer: &str,
    subject_key: &PKey<Private>,
    issuer_key: &PKey<Private>,
) -> X509 {
    let mut subject_name = X509NameBuilder::new().unwrap();
    subject_name.append_entry_by_text("CN", subject).unwrap();
    let subject_name = subject_name.build();
    let mut issuer_name = X509NameBuilder::new().unwrap();
    issuer_name.append_entry_by_text("CN", issuer).unwrap();
    let issuer_name = issuer_name.build();

    let mut builder = X509::builder().unwrap();
    builder.set_version(2).unwrap();
    let serial = BigNum::from_u32(7).unwrap().to_asn1_integer().unwrap();
    builder.set_serial_number(&serial).unwrap();
    builder.set_subject_name(&subject_name).unwrap();
    builder.set_issuer_name(&issuer_name).unwrap();
    builder.set_pubkey(subject_key).unwrap();
    builder.set_not_before(&Asn1Time::days_from_now(0).unwrap()).unwrap();
    builder.set_not_after(&Asn1Time::days_from_now(30).unwrap()).unwrap();
    builder.sign(issuer_key, MessageDigest::sha256()).unwrap();
    builder.build()
}

struct Credentials {
    key: PKey<Private>,
    key_pem: Vec<u8>,
    leaf: X509,
    ca: X509,
}

fn credentials() -> Credentials {
    let key = PKey::generate_ed25519().unwrap();
    let ca_key = ec_key();
    let leaf = certificate("signer", "issuing authority", &key, &ca_key);
    let ca = certificate("issuing authority", "root authority", &ca_key, &ca_key);
    let key_pem = key.private_key_to_pem_pkcs8().unwrap();
    Credentials { key, key_pem, leaf, ca }
}

fn pem_of(certs: &[&X509]) -> Vec<u8> {
    let mut pem = Vec::new();
    for cert in certs {
        pem.extend_from_slice(&cert.to_pem().unwrap());
    }
    pem
}

fn verifies(key: &PKey<Private>, signature: &[u8], data: &[u8]) -> bool {
    let public = PKey::public_key_from_der(&key.public_key_to_der().unwrap()).unwrap();
    let mut verifier = Verifier::new_without_digest(&public).unwrap();
    verifier.verify_oneshot(signature, data).unwrap_or(false)
}

#[test]
fn signer_from_ordered_chain() {
    let c = credentials();
    let pem = pem_of(&[&c.leaf, &c.ca]);
    let signer = Ed25519Signer::from_cert_chain_and_private_key(&pem, &c.key_pem, None).unwrap();
    assert_eq!(signer.alg(), SigningAlg::Ed25519);
    let chain = signer.cert_chain().unwrap();
    assert_eq!(chain, vec![c.leaf.to_der().unwrap(), c.ca.to_der().unwrap()]);
    assert_eq!(signer.reserve_size(), 1024 + chain[0].len() + chain[1].len() + 10000);
    assert_eq!(signer.time_stamp_service_url(), None);
}

#[test]
fn signer_rejects_swapped_chain() {
    let c = credentials();
    let pem = pem_of(&[&c.ca, &c.leaf]);
    let r = Ed25519Signer::from_cert_chain_and_private_key(&pem, &c.key_pem, None);
    match r {
        Err(RawSignerError::InvalidSigningCredentials(text)) => {
            assert_eq!(text, "certificate chain in incorrect order");
        }
        Err(other) => panic!("wrong error: {}", other.message()),
        Ok(_) => panic!("a chain that starts at the issuer was accepted"),
    }
}

#[test]
fn signer_from_single_certificate() {
    let c = credentials();
    let pem = pem_of(&[&c.leaf]);
    let url = Some("http://timestamp.example.com".to_string());
    let signer =
        Ed25519Signer::from_cert_chain_and_private_key(&pem, &c.key_pem, url.clone()).unwrap();
    assert_eq!(signer.cert_chain().unwrap(), vec![c.leaf.to_der().unwrap()]);
    assert_eq!(signer.time_stamp_service_url(), url);
    assert_eq!(signer.reserve_size(), 11024 + c.leaf.to_der().unwrap().len());
}

#[test]
fn signer_rejects_unreadable_key() {
    let c = credentials();
    let pem = pem_of(&[&c.leaf, &c.ca]);
    let r = Ed25519Signer::from_cert_chain_and_private_key(&pem, b"not a key", None);
    assert!(matches!(r, Err(RawSignerError::CryptoLibraryError(_))));
}

#[test]
fn signer_rejects_damaged_certificate() {
    let c = credentials();
    let pem = b"-----BEGIN CERTIFICATE-----\nAAAA\n-----END CERTIFICATE-----\n";
    let r = Ed25519Signer::from_cert_chain_and_private_key(pem, &c.key_pem, None);
    assert!(matches!(r, Err(RawSignerError::CryptoLibraryError(_))));
}

#[test]
fn sign_then_validate_round_trip() {
    let c = credentials();
    let pem = pem_of(&[&c.leaf, &c.ca]);
    let signer = Ed25519Signer::from_cert_chain_and_private_key(&pem, &c.key_pem, None).unwrap();
    let signature = signer.sign(SAMPLE_DATA).unwrap();
    assert_eq!(signature.len(), 64);
    assert_eq!(Some(signature.len()), signer.alg().raw_signature_len());
    assert!(verifies(&c.key, &signature, SAMPLE_DATA));
    let leaf_key = c.leaf.public_key().unwrap();
    let mut verifier = Verifier::new_without_digest(&leaf_key).unwrap();
    assert!(verifier.verify_oneshot(&signature, SAMPLE_DATA).unwrap());
}

#[test]
fn corrupted_signature_does_not_validate() {
    let c = credentials();
    let signer = Ed25519Signer::from_der_chain_and_key(vec![vec![0x30u8, 0x00]], c.key.clone(), None).unwrap();
    let mut signature = signer.sign(SAMPLE_DATA).unwrap();
    signature[10] ^= 0xff;
    assert!(!verifies(&c.key, &signature, SAMPLE_DATA));
}

#[test]
fn corrupted_data_does_not_validate() {
    let c = credentials();
    let signer = Ed25519Signer::from_der_chain_and_key(vec![vec![0x30u8, 0x00]], c.key.clone(), None).unwrap();
    let signature = signer.sign(SAMPLE_DATA).unwrap();
    let mut data = SAMPLE_DATA.to_vec();
    data[10] = 0;
    assert!(!verifies(&c.key, &signature, &data));
}

#[test]
fn sign_matches_published_vector() {
    let secret: [u8; 32] = [
        0x9d, 0x61, 0xb1, 0x9d, 0xef, 0xfd, 0x5a, 0x60, 0xba, 0x84, 0x4a, 0xf4, 0x92, 0xec, 0x2c,
        0xc4, 0x44, 0x49, 0xc5, 0x69, 0x7b, 0x32, 0x69, 0x19, 0x70, 0x3b, 0xac, 0x03, 0x1c, 0xae,
        0x7f, 0x60,
    ];
    let expected: [u8; 64] = [
        0xe5, 0x56, 0x43, 0x00, 0xc3, 0x60, 0xac, 0x72, 0x90, 0x86, 0xe2, 0xcc, 0x80, 0x6e, 0x82,
        0x8a, 0x84, 0x87, 0x7f, 0x1e, 0xb8, 0xe5, 0xd9, 0x74, 0xd8, 0x73, 0xe0, 0x65, 0x22, 0x49,
        0x01, 0x55, 0x5f, 0xb8, 0x82, 0x15, 0x90, 0xa3, 0x3b, 0xac, 0xc6, 0x1e, 0x39, 0x70, 0x1c,
        0xf9, 0xb4, 0x6b, 0xd2, 0x5b, 0xf5, 0xf0, 0x59, 0x5b, 0xbe, 0x24, 0x65, 0x51, 0x41, 0x43,
        0x8e, 0x7a, 0x10, 0x0b,
    ];
    let key = PKey::private_key_from_raw_bytes(&secret, Id::ED25519).unwrap();
    let signer = Ed25519Signer::from_der_chain_and_key(vec![vec![0x30u8, 0x00]], key, None).unwrap();
    assert_eq!(signer.sign(b"").unwrap(), expected.to_vec());
}

#[test]
fn signer_from_parts_keeps_what_it_is_given() {
    let c = credentials();
    let chain = vec![vec![1u8, 2, 3], vec![4u8; 100]];
    let url = Some("http://tsa.example.org/".to_string());
    let signer = Ed25519Signer::from_der_chain_and_key(chain.clone(), c.key, url.clone()).unwrap();
    assert_eq!(signer.cert_chain().unwrap(), chain);
    assert_eq!(signer.time_stamp_service_url(), url);
    assert_eq!(signer.reserve_size(), 1024 + 103 + 10000);
    assert_eq!(signer.reserve_size(), SIGNATURE_OVERHEAD + 103 + TIME_STAMP_SIZE);
}

#[test]
fn chain_without_a_certificate_is_refused() {
    let c = credentials();
    match Ed25519Signer::from_der_chain_and_key(vec![], c.key.clone(), None) {
        Err(RawSignerError::InvalidSigningCredentials(text)) => {
            assert_eq!(text, "certificate chain is empty")
        }
        _ => panic!("accepted a chain with no certificate"),
    }
    match SigningCredentials::from_der_chain_and_key(vec![], c.key, None) {
        Err(e) => {
            assert_eq!(e.message(), "invalid signing credentials (certificate chain is empty)")
        }
        Ok(_) => panic!("accepted a chain with no certificate"),
    }
}

#[test]
fn reserve_size_of_smallest_chain() {
    let c = credentials();
    let signer = Ed25519Signer::from_der_chain_and_key(vec![vec![]], c.key, None).unwrap();
    assert_eq!(signer.reserve_size(), 11024);
    assert_eq!(signer.cert_chain().unwrap(), vec![Vec::<u8>::new()]);
}

#[test]
fn reserve_size_covers_chain_and_signature() {
    let c = credentials();
    let pem = pem_of(&[&c.leaf, &c.ca]);
    let signer = Ed25519Signer::from_cert_chain_and_private_key(&pem, &c.key_pem, None).unwrap();
    let signature = signer.sign(SAMPLE_DATA).unwrap();
    let chain_len: usize = signer.cert_chain().unwrap().iter().map(|c| c.len()).sum();
    assert!(signer.reserve_size() >= chain_len + signature.len());
}

#[test]
fn signing_with_a_key_of_another_kind_gives_no_foreign_signature() {
    let signer = Ed25519Signer::from_der_chain_and_key(vec![vec![0x30u8, 0x00]], ec_key(), None).unwrap();
    match signer.sign(SAMPLE_DATA) {
        Err(RawSignerError::CryptoLibraryError(_)) => {}
        Err(RawSignerError::InternalError(text)) => {
            assert_eq!(text, "signature is not 64 bytes long")
        }
        Err(other) => panic!("wrong error: {}", other.message()),
        Ok(signature) => assert_eq!(signature.len(), 64),
    }
    let rsa = PKey::from_rsa(Rsa::generate(2048).unwrap()).unwrap();
    let signer = Ed25519Signer::from_der_chain_and_key(vec![vec![0x30u8, 0x00]], rsa, None).unwrap();
    assert!(signer.sign(SAMPLE_DATA).is_err());
}

#[test]
fn ed25519_signature_result_passes_a_signature_of_64_bytes() {
    let mut sig = vec![0u8; 64];
    sig[0] = 7;
    sig[63] = 9;
    assert_eq!(ed25519_signature_result(Ok(sig.clone())).unwrap(), sig);
}

#[test]
fn ed25519_signature_result_refuses_other_lengths() {
    for len in [0usize, 1, 63, 65, 256] {
        match ed25519_signature_result(Ok(vec![1u8; len])) {
            Err(RawSignerError::InternalError(text)) => {
                assert_eq!(text, "signature is not 64 bytes long")
            }
            _ => panic!("expected an internal error"),
        }
    }
}

#[test]
fn ed25519_signature_result_reports_the_library_error() {
    match ed25519_signature_result(Err(ErrorStack::get())) {
        Err(RawSignerError::CryptoLibraryError(text)) => assert_eq!(text, "OpenSSL error"),
        _ => panic!("expected the library's error"),
    }
}

#[test]
fn rsa_signature_result_passes_a_signature_of_modulus_length() {
    let mut sig = vec![3u8; 256];
    sig[255] = 1;
    assert_eq!(rsa_signature_result(Ok(sig.clone()), 256).unwrap(), sig);
    assert_eq!(rsa_signature_result(Ok(vec![9u8, 8, 7]), 3).unwrap(), vec![9u8, 8, 7]);
}

#[test]
fn rsa_signature_result_refuses_other_lengths() {
    for (len, modulus_len) in [(0usize, 256usize), (255, 256), (257, 256), (256, 384)] {
        match rsa_signature_result(Ok(vec![1u8; len]), modulus_len) {
            Err(RawSignerError::InternalError(text)) => {
                assert_eq!(text, "signature is not as long as the modulus")
            }
            _ => panic!("expected an internal error"),
        }
    }
}

#[test]
fn rsa_signature_result_reports_the_library_error() {
    match rsa_signature_result(Err(ErrorStack::get()), 256) {
        Err(RawSignerError::CryptoLibraryError(text)) => assert_eq!(text, "OpenSSL error"),
        _ => panic!("expected the library's error"),
    }
}

#[test]
fn library_error_carries_the_library_text() {
    let stack = PKey::private_key_from_pem(b"not a key").unwrap_err();
    let text = stack.to_string();
    match library_error(stack) {
        RawSignerError::CryptoLibraryError(t) => {
            assert_eq!(t, text);
            assert!(!t.is_empty());
        }
        _ => panic!("expected the library's error"),
    }
}

fn names(subject: &[u8], issuer: &[u8]) -> CertificateNames {
    CertificateNames { subject: subject.to_vec(), issuer: issuer.to_vec() }
}

#[test]
fn names_in_order_say_nothing_against_the_credentials() {
    assert!(chain_order_result(&[]).is_ok());
    assert!(chain_order_result(&[names(b"leaf", b"ca")]).is_ok());
    assert!(chain_order_result(&[names(b"leaf", b"ca"), names(b"ca", b"root")]).is_ok());
}

#[test]
fn names_out_of_order_make_the_credentials_invalid() {
    match chain_order_result(&[names(b"ca", b"root"), names(b"leaf", b"ca")]) {
        Err(e) => assert_eq!(
            e.message(),
            "invalid signing credentials (certificate chain in incorrect order)"
        ),
        Ok(_) => panic!("accepted a chain that is not leaf-first"),
    }
}

#[test]
fn key_result_passes_a_parsed_key_through() {
    let key = PKey::generate_ed25519().unwrap();
    let raw = key.raw_private_key().unwrap();
    let kept = key_result(Ok(key)).unwrap();
    assert_eq!(kept.raw_private_key().unwrap(), raw);
}

#[test]
fn key_result_reports_the_library_error() {
    let expected = PKey::private_key_from_pem(b"not a key").unwrap_err().to_string();
    match key_result(PKey::private_key_from_pem(b"not a key")) {
        Err(RawSignerError::CryptoLibraryError(text)) => assert_eq!(text, expected),
        _ => panic!("expected the library's error"),
    }
}

#[test]
fn ordering_is_reported_before_the_key() {
    let c = credentials();
    let pem = pem_of(&[&c.ca, &c.leaf]);
    let r = Ed25519Signer::from_cert_chain_and_private_key(&pem, b"not a key", None);
    assert!(matches!(r, Err(RawSignerError::InvalidSigningCredentials(_))));
}

#[test]
fn credentials_from_der_keep_what_they_are_given() {
    let key = PKey::generate_ed25519().unwrap();
    let url = Some("http://tsa.example.net".to_string());
    let ders = vec![vec![1u8; 10], vec![2u8; 20]];
    let credentials =
        SigningCredentials::from_der_chain_and_key(ders.clone(), key, url.clone()).unwrap();
    assert_eq!(credentials.cert_chain().unwrap(), ders);
    assert_eq!(credentials.reserve_size(), 11054);
    let signer = Ed25519Signer::from_credentials(credentials);
    assert_eq!(signer.cert_chain().unwrap(), ders);
    assert_eq!(signer.reserve_size(), 1024 + 30 + 10000);
    assert_eq!(signer.time_stamp_service_url(), url);
}

fn ec_key_on(curve: Nid) -> PKey<Private> {
    let group = EcGroup::from_curve_name(curve).unwrap();
    PKey::from_ec_key(EcKey::generate(&group).unwrap()).unwrap()
}

fn ecdsa_signer(alg: SigningAlg, curve: Nid) -> (EcdsaSigner, Vec<u8>) {
    let key = ec_key_on(curve);
    let public_key = key.public_key_to_der().unwrap();
    let credentials = SigningCredentials::from_der_chain_and_key(vec![vec![5u8; 7]], key, None)
        .unwrap();
    (EcdsaSigner::from_credentials(credentials, alg).unwrap(), public_key)
}

#[test]
fn ecdsa_sign_then_validate_round_trip() {
    for (alg, curve, len) in [
        (SigningAlg::Es256, Nid::X9_62_PRIME256V1, 64usize),
        (SigningAlg::Es384, Nid::SECP384R1, 96),
        (SigningAlg::Es512, Nid::SECP521R1, 132),
    ] {
        let (signer, public_key) = ecdsa_signer(alg, curve);
        assert_eq!(signer.alg(), alg);
        for _ in 0..8 {
            let signature = signer.sign(SAMPLE_DATA).unwrap();
            assert_eq!(signature.len(), len);
            let validator = validator_for_signing_alg(alg).unwrap();
            assert_eq!(validator.validate(&signature, SAMPLE_DATA, &public_key), Ok(()));
        }
    }
}

#[test]
fn ed25519_sign_then_validate_through_the_registry() {
    let c = credentials();
    let pem = pem_of(&[&c.leaf, &c.ca]);
    let signer = Ed25519Signer::from_cert_chain_and_private_key(&pem, &c.key_pem, None).unwrap();
    let signature = signer.sign(SAMPLE_DATA).unwrap();
    let validator = validator_for_signing_alg(signer.alg()).unwrap();
    let leaf_key = c.leaf.public_key().unwrap().public_key_to_der().unwrap();
    assert_eq!(validator.validate(&signature, SAMPLE_DATA, &leaf_key), Ok(()));
}

#[test]
fn ecdsa_signer_keeps_its_credentials() {
    let (signer, _) = ecdsa_signer(SigningAlg::Es256, Nid::X9_62_PRIME256V1);
    assert_eq!(signer.cert_chain().unwrap(), vec![vec![5u8; 7]]);
    assert_eq!(signer.reserve_size(), 1024 + 7 + 10000);
    assert_eq!(signer.time_stamp_service_url(), None);
}

#[test]
fn ecdsa_signer_is_for_ecdsa_only() {
    for alg in [SigningAlg::Ed25519, SigningAlg::Ps256, SigningAlg::Ps384, SigningAlg::Ps512] {
        let credentials =
            SigningCredentials::from_der_chain_and_key(vec![vec![0x30u8, 0x00]], ec_key(), None).unwrap();
        match EcdsaSigner::from_credentials(credentials, alg) {
            Err(RawSignerError::InternalError(text)) => assert_eq!(text, "not an ECDSA algorithm"),
            _ => panic!("expected an internal error"),
        }
    }
}

#[test]
fn raw_signature_result_converts_der() {
    let der = vec![0x30, 0x06, 0x02, 0x01, 0x01, 0x02, 0x01, 0x02];
    let raw = raw_signature_result(Ok(der), SigningAlg::Es256).unwrap();
    let mut expected = vec![0u8; 64];
    expected[31] = 1;
    expected[63] = 2;
    assert_eq!(raw, expected);
}

#[test]
fn raw_signature_result_reports_what_is_no_signature() {
    match raw_signature_result(Ok(vec![0x30, 0x06, 0x02, 0x01]), SigningAlg::Es256) {
        Err(RawSignerError::InternalError(text)) => assert_eq!(text, "invalid DER signature"),
        _ => panic!("expected an internal error"),
    }
}

#[test]
fn raw_signature_result_reports_the_library_error() {
    match raw_signature_result(Err(ErrorStack::get()), SigningAlg::Es384) {
        Err(RawSignerError::CryptoLibraryError(text)) => assert_eq!(text, "OpenSSL error"),
        _ => panic!("expected the library's error"),
    }
}

fn rsa_signer(alg: SigningAlg) -> (RsaSigner, Vec<u8>) {
    let key = PKey::from_rsa(Rsa::generate(2048).unwrap()).unwrap();
    let public_key = key.public_key_to_der().unwrap();
    let credentials = SigningCredentials::from_der_chain_and_key(vec![vec![5u8; 9]], key, None)
        .unwrap();
    (RsaSigner::from_credentials(credentials, alg).unwrap(), public_key)
}

#[test]
fn rsa_sign_then_validate_round_trip() {
    for alg in [SigningAlg::Ps256, SigningAlg::Ps384, SigningAlg::Ps512] {
        let (signer, public_key) = rsa_signer(alg);
        assert_eq!(signer.alg(), alg);
        let signature = signer.sign(SAMPLE_DATA).unwrap();
        assert_eq!(signature.len(), 256);
        let validator = validator_for_signing_alg(alg).unwrap();
        assert_eq!(validator.validate(&signature, SAMPLE_DATA, &public_key), Ok(()));

        let mut bad = signature.clone();
        bad[10] ^= 0x04;
        assert_eq!(
            validator.validate(&bad, SAMPLE_DATA, &public_key),
            Err(RawSignatureValidationError::SignatureMismatch)
        );
        let mut data = SAMPLE_DATA.to_vec();
        data[10] = 0;
        assert_eq!(
            validator.validate(&signature, &data, &public_key),
            Err(RawSignatureValidationError::SignatureMismatch)
        );
    }
}

#[test]
fn rsa_signature_made_for_another_digest_is_a_mismatch() {
    let (signer, public_key) = rsa_signer(SigningAlg::Ps256);
    let signature = signer.sign(SAMPLE_DATA).unwrap();
    let validator = validator_for_signing_alg(SigningAlg::Ps384).unwrap();
    assert_eq!(
        validator.validate(&signature, SAMPLE_DATA, &public_key),
        Err(RawSignatureValidationError::SignatureMismatch)
    );
}

#[test]
fn rsa_signature_of_wrong_length_is_malformed() {
    let (signer, public_key) = rsa_signer(SigningAlg::Ps256);
    let signature = signer.sign(SAMPLE_DATA).unwrap();
    let validator = validator_for_signing_alg(SigningAlg::Ps256).unwrap();
    assert_eq!(
        validator.validate(&signature[..255], SAMPLE_DATA, &public_key),
        Err(RawSignatureValidationError::InvalidSignature)
    );
    assert_eq!(
        validator.validate(&[], SAMPLE_DATA, &public_key),
        Err(RawSignatureValidationError::InvalidSignature)
    );
}

#[test]
fn rsa_validator_rejects_keys_it_cannot_use() {
    let (signer, _) = rsa_signer(SigningAlg::Ps256);
    let signature = signer.sign(SAMPLE_DATA).unwrap();
    let validator = validator_for_signing_alg(SigningAlg::Ps256).unwrap();
    let ec = ec_key().public_key_to_der().unwrap();
    assert_eq!(
        validator.validate(&signature, SAMPLE_DATA, &ec),
        Err(RawSignatureValidationError::InvalidPublicKey)
    );
    assert_eq!(
        validator.validate(&signature, SAMPLE_DATA, b"not a key"),
        Err(RawSignatureValidationError::InvalidPublicKey)
    );
}

#[test]
fn rsa_signer_keeps_its_credentials() {
    let (signer, _) = rsa_signer(SigningAlg::Ps512);
    assert_eq!(signer.cert_chain().unwrap(), vec![vec![5u8; 9]]);
    assert_eq!(signer.reserve_size(), 1024 + 9 + 10000);
    assert_eq!(signer.time_stamp_service_url(), None);
}

#[test]
fn rsa_signer_is_for_rsa_pss_only() {
    for alg in [SigningAlg::Ed25519, SigningAlg::Es256, SigningAlg::Es384, SigningAlg::Es512] {
        let credentials =
            SigningCredentials::from_der_chain_and_key(vec![vec![0x30u8, 0x00]], ec_key(), None).unwrap();
        match RsaSigner::from_credentials(credentials, alg) {
            Err(RawSignerError::InternalError(text)) => {
                assert_eq!(text, "not an RSA-PSS algorithm")
            }
            _ => panic!("expected an internal error"),
        }
    }
}

#[test]
fn input_without_certificates_is_refused() {
    let c = credentials();
    match Ed25519Signer::from_cert_chain_and_private_key(b"", &c.key_pem, None) {
        Err(RawSignerError::InvalidSigningCredentials(text)) => {
            assert_eq!(text, "certificate chain is empty")
        }
        _ => panic!("accepted a signer with no certificate"),
    }
    match Ed25519Signer::from_cert_chain_and_private_key(b"no certificate here", &c.key_pem, None)
    {
        Err(RawSignerError::InvalidSigningCredentials(text)) => {
            assert_eq!(text, "certificate chain is empty")
        }
        _ => panic!("accepted a signer with no certificate"),
    }
}

#[test]
fn input_without_certificates_and_unreadable_key_reports_the_library() {
    let r = Ed25519Signer::from_cert_chain_and_private_key(b"", b"not a key", None);
    assert!(matches!(r, Err(RawSignerError::CryptoLibraryError(_))));
}

#[test]
fn every_signer_holds_a_certificate() {
    let c = credentials();
    let pem = pem_of(&[&c.leaf, &c.ca]);
    let signer = Ed25519Signer::from_cert_chain_and_private_key(&pem, &c.key_pem, None).unwrap();
    let chain = signer.cert_chain().unwrap();
    assert!(chain.len() >= 1);
    assert_eq!(chain[0], c.leaf.to_der().unwrap());
}

#[test]
fn three_certificates_in_order_are_accepted() {
    let key = PKey::generate_ed25519().unwrap();
    let ca_key = ec_key();
    let root_key = ec_key();
    let leaf = certificate("signer", "intermediate", &key, &ca_key);
    let ca = certificate("intermediate", "root", &ca_key, &root_key);
    let root = certificate("root", "root", &root_key, &root_key);
    let key_pem = key.private_key_to_pem_pkcs8().unwrap();

    let pem = pem_of(&[&leaf, &ca, &root]);
    let signer = Ed25519Signer::from_cert_chain_and_private_key(&pem, &key_pem, None).unwrap();
    assert_eq!(
        signer.cert_chain().unwrap(),
        vec![leaf.to_der().unwrap(), ca.to_der().unwrap(), root.to_der().unwrap()]
    );

    let pem = pem_of(&[&leaf, &root, &ca]);
    let r = Ed25519Signer::from_cert_chain_and_private_key(&pem, &key_pem, None);
    assert!(matches!(r, Err(RawSignerError::InvalidSigningCredentials(_))));
}
