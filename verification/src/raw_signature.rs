//! The algorithm set and the error values shared by raw signers and raw
//! signature validators.

use vstd::prelude::*;
use vstd::string::*;

verus! {

/// The closed set of signing algorithms.
#[derive(Clone, Copy, Debug, PartialEq, Eq, Structural)]
pub enum SigningAlg {
    /// ECDSA with SHA-256.
    Es256,
    /// ECDSA with SHA-384.
    Es384,
    /// ECDSA with SHA-512.
    Es512,
    /// RSASSA-PSS using SHA-256 and MGF1 with SHA-256.
    Ps256,
    /// RSASSA-PSS using SHA-384 and MGF1 with SHA-384.
    Ps384,
    /// RSASSA-PSS using SHA-512 and MGF1 with SHA-512.
    Ps512,
    /// Edwards-curve DSA over curve 25519.
    Ed25519,
}

/// Which of the three families an algorithm belongs to.
#[derive(Clone, Copy, Debug, PartialEq, Eq, Structural)]
pub enum AlgFamily {
    /// Signatures are the two scalars r and s, each padded to the field size.
    Ecdsa,
    /// Signatures are a fixed 64-byte value.
    EdDsa,
    /// Signatures are as long as the key's modulus.
    RsaPss,
}

/// The digests that the signing algorithms are built on.
#[derive(Clone, Copy, Debug, PartialEq, Eq, Structural)]
pub enum DigestAlg {
    /// SHA-256.
    Sha256,
    /// SHA-384.
    Sha384,
    /// SHA-512.
    Sha512,
}

impl SigningAlg {
    /// The digest that `self` signs over and, for RSA-PSS, also masks and
    /// salts by. `None` for Ed25519, which signs the message itself.
    pub open spec fn digest_spec(self) -> Option<DigestAlg> {
        match self {
            SigningAlg::Es256 | SigningAlg::Ps256 => Some(DigestAlg::Sha256),
            SigningAlg::Es384 | SigningAlg::Ps384 => Some(DigestAlg::Sha384),
            SigningAlg::Es512 | SigningAlg::Ps512 => Some(DigestAlg::Sha512),
            SigningAlg::Ed25519 => None,
        }
    }

    /// The family of `self`.
    pub open spec fn family_spec(self) -> AlgFamily {
        match self {
            SigningAlg::Es256 | SigningAlg::Es384 | SigningAlg::Es512 => AlgFamily::Ecdsa,
            SigningAlg::Ed25519 => AlgFamily::EdDsa,
            SigningAlg::Ps256 | SigningAlg::Ps384 | SigningAlg::Ps512 => AlgFamily::RsaPss,
        }
    }

    /// The length in bytes of a raw signature under `self`, where the
    /// algorithm fixes it: twice the field size for ECDSA, 64 for Ed25519.
    /// `None` for RSA-PSS, where the key's modulus decides.
    pub open spec fn raw_signature_len_spec(self) -> Option<nat> {
        match self {
            SigningAlg::Es256 => Some(64nat),
            SigningAlg::Es384 => Some(96nat),
            SigningAlg::Es512 => Some(132nat),
            SigningAlg::Ed25519 => Some(64nat),
            SigningAlg::Ps256 | SigningAlg::Ps384 | SigningAlg::Ps512 => None,
        }
    }

    /// The family of `self`.
    pub fn family(&self) -> (f: AlgFamily)
        ensures
            f == self.family_spec(),
    {
        match self {
            SigningAlg::Es256 | SigningAlg::Es384 | SigningAlg::Es512 => AlgFamily::Ecdsa,
            SigningAlg::Ed25519 => AlgFamily::EdDsa,
            SigningAlg::Ps256 | SigningAlg::Ps384 | SigningAlg::Ps512 => AlgFamily::RsaPss,
        }
    }

    /// The fixed raw signature length of `self`, if it has one.
    pub fn raw_signature_len(&self) -> (n: Option<usize>)
        ensures
            n is Some <==> self.raw_signature_len_spec() is Some,
            n is Some ==> n.unwrap() == self.raw_signature_len_spec().unwrap(),
    {
        match self {
            SigningAlg::Es256 => Some(64),
            SigningAlg::Es384 => Some(96),
            SigningAlg::Es512 => Some(132),
            SigningAlg::Ed25519 => Some(64),
            SigningAlg::Ps256 | SigningAlg::Ps384 | SigningAlg::Ps512 => None,
        }
    }
}

/// What can go wrong when a raw signer is built or used.
#[derive(Debug)]
pub enum RawSignerError {
    /// The signing credentials are invalid.
    InvalidSigningCredentials(String),
    /// An I/O error occurred.
    IoError(String),
    /// The cryptography library reported an error.
    CryptoLibraryError(String),
    /// An unexpected internal error occurred.
    InternalError(String),
}

impl RawSignerError {
    /// The text carried by the error, whatever its kind.
    pub open spec fn detail(self) -> Seq<char> {
        match self {
            RawSignerError::InvalidSigningCredentials(s) => s@,
            RawSignerError::IoError(s) => s@,
            RawSignerError::CryptoLibraryError(s) => s@,
            RawSignerError::InternalError(s) => s@,
        }
    }

    /// The error as a sentence: what kind it is, then the text it carries.
    pub open spec fn message_spec(self) -> Seq<char> {
        match self {
            RawSignerError::InvalidSigningCredentials(s) => "invalid signing credentials ("@ + s@
                + ")"@,
            RawSignerError::IoError(s) => "I/O error ("@ + s@ + ")"@,
            RawSignerError::CryptoLibraryError(s) =>
                "an error was reported by the cryptography library: "@ + s@,
            RawSignerError::InternalError(s) => "internal error ("@ + s@ + ")"@,
        }
    }

    /// The error as a sentence.
    pub fn message(&self) -> (text: String)
        ensures
            text@ == self.message_spec(),
    {
        match self {
            RawSignerError::InvalidSigningCredentials(s) => "invalid signing credentials ("
                .to_string().concat(s.as_str()).concat(")"),
            RawSignerError::IoError(s) => "I/O error (".to_string().concat(s.as_str()).concat(")"),
            RawSignerError::CryptoLibraryError(s) =>
                "an error was reported by the cryptography library: ".to_string().concat(
                    s.as_str(),
                ),
            RawSignerError::InternalError(s) => "internal error (".to_string().concat(
                s.as_str(),
            ).concat(")"),
        }
    }
}

/// What can go wrong when a raw signature is validated. Each variant names
/// one root cause.
#[derive(Debug, PartialEq, Eq)]
pub enum RawSignatureValidationError {
    /// The signature does not match the provided data or public key.
    SignatureMismatch,
    /// The cryptography library reported an error.
    CryptoLibraryError(String),
    /// The public key could not be parsed as a key of the algorithm.
    InvalidPublicKey,
    /// The signature is not encoded as the algorithm requires.
    InvalidSignature,
    /// The algorithm is not available.
    UnsupportedAlgorithm,
    /// An unexpected internal error occurred.
    InternalError(String),
}

impl RawSignatureValidationError {
    /// The error as a sentence: what kind it is, then the text it carries.
    pub open spec fn message_spec(self) -> Seq<char> {
        match self {
            RawSignatureValidationError::SignatureMismatch =>
                "the signature does not match the provided data or public key"@,
            RawSignatureValidationError::CryptoLibraryError(s) =>
                "an error was reported by the cryptography library: "@ + s@,
            RawSignatureValidationError::InvalidPublicKey => "invalid public key"@,
            RawSignatureValidationError::InvalidSignature => "invalid signature value"@,
            RawSignatureValidationError::UnsupportedAlgorithm =>
                "signature uses an unsupported algorithm"@,
            RawSignatureValidationError::InternalError(s) => "internal error ("@ + s@ + ")"@,
        }
    }

    /// The error as a sentence.
    pub fn message(&self) -> (text: String)
        ensures
            text@ == self.message_spec(),
    {
        match self {
            RawSignatureValidationError::SignatureMismatch =>
                "the signature does not match the provided data or public key".to_string(),
            RawSignatureValidationError::CryptoLibraryError(s) =>
                "an error was reported by the cryptography library: ".to_string().concat(
                    s.as_str(),
                ),
            RawSignatureValidationError::InvalidPublicKey => "invalid public key".to_string(),
            RawSignatureValidationError::InvalidSignature => "invalid signature value".to_string(),
            RawSignatureValidationError::UnsupportedAlgorithm =>
                "signature uses an unsupported algorithm".to_string(),
            RawSignatureValidationError::InternalError(s) => "internal error (".to_string().concat(
                s.as_str(),
            ).concat(")"),
        }
    }
}

} // verus!
