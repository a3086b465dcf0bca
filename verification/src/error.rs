//! Errors reported when an identity cannot be built or a peer is rejected.

use vstd::prelude::*;

verus! {

/// Why a peer's certificate was not accepted.
#[derive(Clone, Copy, Debug, PartialEq, Eq, Structural)]
pub enum VerifyError {
    /// The certificate carries no quote extension.
    NoQuoteExtension,
    /// The attestation service did not find the quote valid.
    AttestationRejected,
    /// The quote was not produced for the public key of the certificate.
    BindingMismatch,
    /// The measurement is outside the acceptance policy.
    PolicyRejected,
}

impl VerifyError {
    /// The text that [`VerifyError::reason`] returns.
    pub open spec fn spec_reason(self) -> Seq<char> {
        match self {
            VerifyError::NoQuoteExtension => "Not found quote extension"@,
            VerifyError::AttestationRejected => "Quote verification failed"@,
            VerifyError::BindingMismatch => "Invalid quote report data"@,
            VerifyError::PolicyRejected => "Quote is not allowed"@,
        }
    }

    /// A sentence that names the check that failed, fit for an audit log.
    pub fn reason(&self) -> (text: String)
        ensures
            text@ == self.spec_reason(),
    {
        match self {
            VerifyError::NoQuoteExtension => String::from_str("Not found quote extension"),
            VerifyError::AttestationRejected => String::from_str("Quote verification failed"),
            VerifyError::BindingMismatch => String::from_str("Invalid quote report data"),
            VerifyError::PolicyRejected => String::from_str("Quote is not allowed"),
        }
    }
}

/// Why no certified identity could be built. Each kind carries the account
/// of the component that failed.
#[derive(Debug)]
pub enum BuildError {
    /// No key pair could be generated.
    KeyGeneration(String),
    /// The attestation service produced no quote.
    AttestationFailure(String),
    /// The certificate could not be assembled, signed or serialized.
    Serialization(String),
}

impl BuildError {
    /// The account that the error carries.
    pub open spec fn spec_reason(self) -> Seq<char> {
        match self {
            BuildError::KeyGeneration(reason) => reason@,
            BuildError::AttestationFailure(reason) => reason@,
            BuildError::Serialization(reason) => reason@,
        }
    }

    /// The account of the component that failed.
    pub fn reason(&self) -> (text: String)
        ensures
            text@ == self.spec_reason(),
    {
        match self {
            BuildError::KeyGeneration(reason) => reason.clone(),
            BuildError::AttestationFailure(reason) => reason.clone(),
            BuildError::Serialization(reason) => reason.clone(),
        }
    }
}

/// The two ways in which the library fails towards its callers, each with a
/// human-readable reason.
#[derive(Debug)]
pub enum RaTlsError {
    /// No certified identity could be produced.
    CertificateBuildError(String),
    /// The peer's certificate, quote or measurement was not acceptable.
    QuoteVerifyError(String),
}

impl RaTlsError {
    /// The text that [`RaTlsError::message`] returns.
    pub open spec fn spec_message(self) -> Seq<char> {
        match self {
            RaTlsError::CertificateBuildError(reason) => "CertificateBuildError: "@ + reason@,
            RaTlsError::QuoteVerifyError(reason) => "QuoteVerifyError: "@ + reason@,
        }
    }

    /// Renders the error as the name of its kind, a colon, a space and the
    /// reason.
    pub fn message(&self) -> (text: String)
        ensures
            text@ == self.spec_message(),
    {
        match self {
            RaTlsError::CertificateBuildError(reason) => {
                String::from_str("CertificateBuildError: ").concat(reason.as_str())
            },
            RaTlsError::QuoteVerifyError(reason) => {
                String::from_str("QuoteVerifyError: ").concat(reason.as_str())
            },
        }
    }

    /// A failed build as a certificate build error with the same reason.
    pub fn from_build_error(error: BuildError) -> (converted: Self)
        ensures
            converted matches RaTlsError::CertificateBuildError(reason) && reason@
                == error.spec_reason(),
    {
        match error {
            BuildError::KeyGeneration(reason) => RaTlsError::CertificateBuildError(reason),
            BuildError::AttestationFailure(reason) => RaTlsError::CertificateBuildError(reason),
            BuildError::Serialization(reason) => RaTlsError::CertificateBuildError(reason),
        }
    }

    /// A rejected peer as a quote verification error that names the check
    /// that failed.
    pub fn from_verify_error(error: VerifyError) -> (converted: Self)
        ensures
            converted matches RaTlsError::QuoteVerifyError(reason) && reason@
                == error.spec_reason(),
    {
        RaTlsError::QuoteVerifyError(error.reason())
    }
}

} // verus!
