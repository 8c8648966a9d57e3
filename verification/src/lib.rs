//! The cryptographic core of a content-provenance toolkit.
//!
//! Raw signers and raw signature validators over OpenSSL, the two encodings
//! of an ECDSA signature, the ordering rule for certificate chains, digests,
//! and the errors of the COSE signature envelope.
//!
//! OpenSSL is not safely reentrant: callers on more than one thread
//! serialise their calls into this crate.

pub mod cert_chain;
pub mod cose;
pub mod credentials;
pub mod crypto_library;
pub mod ecdsa_signature;
pub mod ecdsa_signer;
pub mod ecdsa_validator;
pub mod ed25519_signer;
pub mod ed25519_validator;
pub mod hash;
pub mod raw_signature;
pub mod rsa_signer;
pub mod rsa_validator;
pub mod validator;
