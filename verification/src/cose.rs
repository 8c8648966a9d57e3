//! The error surface of the COSE signature envelope, and the rule that an
//! envelope carries exactly one certificate chain.

use vstd::prelude::*;
use vstd::string::*;
use vstd::std_specs::convert::FromSpecImpl;
use crate::raw_signature::{RawSignatureValidationError, RawSignerError};

verus! {

/// A time stamp token could not be obtained, parsed or trusted.
#[derive(Debug)]
pub struct TimeStampError {
    /// What the time stamp subsystem reported.
    pub reason: String,
}

/// The signing certificates do not meet the required certificate profile.
#[derive(Debug)]
pub struct CertificateProfileError {
    /// What the profile check reported.
    pub reason: String,
}

/// The signing certificates do not meet the required trust policy.
#[derive(Debug)]
pub struct CertificateTrustError {
    /// What the trust check reported.
    pub reason: String,
}

/// Describes errors that can occur when processing or generating COSE
/// signatures.
#[derive(Debug)]
pub enum CoseError {
    /// No signing certificate chain was found.
    MissingSigningCertificateChain,
    /// Signing certificates appeared in both protected and unprotected headers.
    MultipleSigningCertificateChains,
    /// No time stamp token found.
    NoTimeStampToken,
    /// Unsupported signing algorithm found.
    UnsupportedSigningAlgorithm,
    /// Could not parse ECDSA signature.
    InvalidEcdsaSignature,
    /// An error occurred while parsing CBOR.
    CborParsingError(String),
    /// An error occurred while generating CBOR.
    CborGenerationError(String),
    /// An error occurred while parsing a time stamp.
    TimeStampError(TimeStampError),
    /// The signing certificate(s) did not match the required certificate
    /// profile.
    CertificateProfileError(CertificateProfileError),
    /// The signing certificate(s) did not match the required trust policy.
    CertificateTrustError(CertificateTrustError),
    /// The box size provided for the signature is too small.
    BoxSizeTooSmall,
    /// An error occurred when generating the underlying raw signature.
    RawSignerError(RawSignerError),
    /// An error occurred when interpreting the underlying raw signature.
    RawSignatureValidationError(RawSignatureValidationError),
    /// An unexpected internal error occurred while requesting the time stamp
    /// response.
    InternalError(String),
}

impl CoseError {
    /// The error as a sentence. An error that wraps another speaks with the
    /// wrapped error's words and adds none of its own.
    pub open spec fn message_spec(self) -> Seq<char> {
        match self {
            CoseError::MissingSigningCertificateChain => "missing signing certificate chain"@,
            CoseError::MultipleSigningCertificateChains =>
                "multiple signing certificate chains detected"@,
            CoseError::NoTimeStampToken =>
                "no time stamp token found in sigTst or sigTst2 header"@,
            CoseError::UnsupportedSigningAlgorithm =>
                "the certificate was signed using an unsupported signature algorithm"@,
            CoseError::InvalidEcdsaSignature => "could not parse ECDSA signature"@,
            CoseError::CborParsingError(s) => "error while parsing CBOR ("@ + s@ + ")"@,
            CoseError::CborGenerationError(s) => "error while generating CBOR ("@ + s@ + ")"@,
            CoseError::TimeStampError(e) => e.reason@,
            CoseError::CertificateProfileError(e) => e.reason@,
            CoseError::CertificateTrustError(e) => e.reason@,
            CoseError::BoxSizeTooSmall => "the signature box is too small"@,
            CoseError::RawSignerError(e) => e.message_spec(),
            CoseError::RawSignatureValidationError(e) => e.message_spec(),
            CoseError::InternalError(s) => "internal error ("@ + s@ + ")"@,
        }
    }

    /// The error as a sentence.
    pub fn message(&self) -> (text: String)
        ensures
            text@ == self.message_spec(),
    {
        match self {
            CoseError::MissingSigningCertificateChain =>
                "missing signing certificate chain".to_string(),
            CoseError::MultipleSigningCertificateChains =>
                "multiple signing certificate chains detected".to_string(),
            CoseError::NoTimeStampToken =>
                "no time stamp token found in sigTst or sigTst2 header".to_string(),
            CoseError::UnsupportedSigningAlgorithm =>
                "the certificate was signed using an unsupported signature algorithm".to_string(),
            CoseError::InvalidEcdsaSignature => "could not parse ECDSA signature".to_string(),
            CoseError::CborParsingError(s) => "error while parsing CBOR (".to_string().concat(
                s.as_str(),
            ).concat(")"),
            CoseError::CborGenerationError(s) => "error while generating CBOR (".to_string().concat(
                s.as_str(),
            ).concat(")"),
            CoseError::TimeStampError(e) => e.reason.clone(),
            CoseError::CertificateProfileError(e) => e.reason.clone(),
            CoseError::CertificateTrustError(e) => e.reason.clone(),
            CoseError::BoxSizeTooSmall => "the signature box is too small".to_string(),
            CoseError::RawSignerError(e) => e.message(),
            CoseError::RawSignatureValidationError(e) => e.message(),
            CoseError::InternalError(s) => "internal error (".to_string().concat(
                s.as_str(),
            ).concat(")"),
        }
    }
}

impl From<TimeStampError> for CoseError {
    fn from(err: TimeStampError) -> (e: CoseError) {
        CoseError::TimeStampError(err)
    }
}

impl FromSpecImpl<TimeStampError> for CoseError {
    open spec fn obeys_from_spec() -> bool {
        true
    }

    open spec fn from_spec(err: TimeStampError) -> CoseError {
        CoseError::TimeStampError(err)
    }
}

impl From<CertificateProfileError> for CoseError {
    fn from(err: CertificateProfileError) -> (e: CoseError) {
        CoseError::CertificateProfileError(err)
    }
}

impl FromSpecImpl<CertificateProfileError> for CoseError {
    open spec fn obeys_from_spec() -> bool {
        true
    }

    open spec fn from_spec(err: CertificateProfileError) -> CoseError {
        CoseError::CertificateProfileError(err)
    }
}

impl From<CertificateTrustError> for CoseError {
    fn from(err: CertificateTrustError) -> (e: CoseError) {
        CoseError::CertificateTrustError(err)
    }
}

impl FromSpecImpl<CertificateTrustError> for CoseError {
    open spec fn obeys_from_spec() -> bool {
        true
    }

    open spec fn from_spec(err: CertificateTrustError) -> CoseError {
        CoseError::CertificateTrustError(err)
    }
}

impl From<RawSignerError> for CoseError {
    fn from(err: RawSignerError) -> (e: CoseError) {
        CoseError::RawSignerError(err)
    }
}

impl FromSpecImpl<RawSignerError> for CoseError {
    open spec fn obeys_from_spec() -> bool {
        true
    }

    open spec fn from_spec(err: RawSignerError) -> CoseError {
        CoseError::RawSignerError(err)
    }
}

impl From<RawSignatureValidationError> for CoseError {
    fn from(err: RawSignatureValidationError) -> (e: CoseError) {
        CoseError::RawSignatureValidationError(err)
    }
}

impl FromSpecImpl<RawSignatureValidationError> for CoseError {
    open spec fn obeys_from_spec() -> bool {
        true
    }

    open spec fn from_spec(err: RawSignatureValidationError) -> CoseError {
        CoseError::RawSignatureValidationError(err)
    }
}

/// The certificate chain of an envelope, given what its protected and its
/// unprotected header hold. An envelope carries exactly one chain: none is an
/// error, and so is one in each header.
pub fn select_cert_chain(
    protected: Option<Vec<Vec<u8>>>,
    unprotected: Option<Vec<Vec<u8>>>,
) -> (r: Result<Vec<Vec<u8>>, CoseError>)
    ensures
        protected is None && unprotected is None ==> r is Err
            && r.unwrap_err() is MissingSigningCertificateChain,
        protected is Some && unprotected is Some ==> r is Err
            && r.unwrap_err() is MultipleSigningCertificateChains,
        protected is Some && unprotected is None ==> r == Ok::<Vec<Vec<u8>>, CoseError>(
            protected.unwrap(),
        ),
        protected is None && unprotected is Some ==> r == Ok::<Vec<Vec<u8>>, CoseError>(
            unprotected.unwrap(),
        ),
{
    match (protected, unprotected) {
        (None, None) => Err(CoseError::MissingSigningCertificateChain),
        (Some(_), Some(_)) => Err(CoseError::MultipleSigningCertificateChains),
        (Some(chain), None) => Ok(chain),
        (None, Some(chain)) => Ok(chain),
    }
}

} // verus!
