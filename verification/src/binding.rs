//! Verifying a peer: the quote in its certificate must be genuine, must have
//! been produced for the certificate's own public key, and must report a
//! measurement that the policy accepts.

use vstd::prelude::*;

use crate::attestation::{AttestationError, AttestationService};
use crate::config::{AttestationPolicy, RaTlsConfig};
use crate::error::VerifyError;
use crate::extension::{
    certified_key, embedded_quote, parse_certificate, x509_certificate, REPORT_OID,
};
use crate::measurement::{bytes_equal, Measurement, VerifiedMeasurement};
use crate::utils::{hash_sha512, sha512};

verus! {

/// The model of the attestation service's answer: the measurement where it
/// found the quote genuine.
pub open spec fn attested_view(attested: Result<VerifiedMeasurement, AttestationError>) -> Option<
    Measurement,
> {
    match attested {
        Ok(measurement) => Some(measurement@),
        Err(_) => None,
    }
}

/// The model of a verification result.
pub open spec fn verdict_view(verdict: Result<VerifiedMeasurement, VerifyError>) -> Result<
    Measurement,
    VerifyError,
> {
    match verdict {
        Ok(measurement) => Ok(measurement@),
        Err(reason) => Err(reason),
    }
}

/// What the binding check decides for a public key and the attestation
/// service's answer: a quote that the service rejected is rejected; a genuine
/// quote is accepted only if its report data is the SHA-512 digest of the key.
pub open spec fn binding_verdict(public_key: Seq<u8>, attested: Option<Measurement>) -> Result<
    Measurement,
    VerifyError,
> {
    match attested {
        None => Err(VerifyError::AttestationRejected),
        Some(measurement) => if measurement.report_data == sha512(public_key) {
            Ok(measurement)
        } else {
            Err(VerifyError::BindingMismatch)
        },
    }
}

/// What the binding check decides for what was read from a certificate: a
/// certificate without a quote is rejected whatever the service would say.
pub open spec fn certificate_verdict(
    certificate: Option<(Seq<u8>, Option<Seq<u8>>)>,
    attested: Option<Measurement>,
) -> Result<Measurement, VerifyError> {
    match certificate {
        Some((public_key, Some(_))) => binding_verdict(public_key, attested),
        _ => Err(VerifyError::NoQuoteExtension),
    }
}

/// What the policy makes of the binding check's result: a bound measurement
/// is accepted only if the policy accepts it.
pub open spec fn policy_verdict(policy: AttestationPolicy, bound: Result<Measurement, VerifyError>)
    -> Result<Measurement, VerifyError> {
    match bound {
        Ok(measurement) => if policy.accepts(measurement) {
            Ok(measurement)
        } else {
            Err(VerifyError::PolicyRejected)
        },
        Err(reason) => Err(reason),
    }
}

/// Whether `answer` is a possible answer of the attestation service when it
/// is asked about exactly the bytes of `quote`.
pub open spec fn service_answer<A: AttestationService>(
    attestation: &A,
    quote: Seq<u8>,
    answer: Result<VerifiedMeasurement, AttestationError>,
) -> bool {
    exists|asked: &[u8]|
        asked@ == quote && #[trigger] call_ensures(A::verify_quote, (attestation, asked), answer)
}

/// What verifying the binding of a certificate returns. A certificate
/// without a quote is rejected for that. For a certificate with a quote the
/// result is what [`certificate_verdict`] gives for the answer that the
/// attestation service gave when it was asked about exactly that quote.
pub open spec fn binding_outcome<A: AttestationService>(
    attestation: &A,
    cert_der: Seq<u8>,
    verdict: Result<Measurement, VerifyError>,
) -> bool {
    match embedded_quote(cert_der) {
        Some(quote) => exists|answer: Result<VerifiedMeasurement, AttestationError>|
            #[trigger] service_answer(attestation, quote, answer) && verdict
                == certificate_verdict(
                x509_certificate(cert_der, REPORT_OID@),
                attested_view(answer),
            ),
        None => verdict == Err::<Measurement, VerifyError>(VerifyError::NoQuoteExtension),
    }
}

/// What verifying a certificate against a policy returns: as
/// [`binding_outcome`], with the policy applied to a measurement that passed
/// the binding check.
pub open spec fn verification_outcome<A: AttestationService>(
    attestation: &A,
    policy: AttestationPolicy,
    cert_der: Seq<u8>,
    verdict: Result<Measurement, VerifyError>,
) -> bool {
    match embedded_quote(cert_der) {
        Some(quote) => exists|answer: Result<VerifiedMeasurement, AttestationError>|
            #[trigger] service_answer(attestation, quote, answer) && verdict == policy_verdict(
                policy,
                certificate_verdict(
                    x509_certificate(cert_der, REPORT_OID@),
                    attested_view(answer),
                ),
            ),
        None => verdict == Err::<Measurement, VerifyError>(VerifyError::NoQuoteExtension),
    }
}

/// Decides whether a quote belongs to a public key, given what the
/// attestation service said about the quote.
pub fn check_binding(
    public_key: Vec<u8>,
    attested: Result<VerifiedMeasurement, AttestationError>,
) -> (verdict: Result<VerifiedMeasurement, VerifyError>)
    ensures
        verdict_view(verdict) == binding_verdict(public_key@, attested_view(attested)),
{
    match attested {
        Err(_) => Err(VerifyError::AttestationRejected),
        Ok(measurement) => {
            let expected = hash_sha512(public_key);
            if bytes_equal(expected.as_slice(), measurement.report_data.as_slice()) {
                Ok(measurement)
            } else {
                Err(VerifyError::BindingMismatch)
            }
        },
    }
}

/// Verifies that the certificate carries a genuine quote produced for the
/// certificate's own public key, and returns what the quote reports.
///
/// The attestation service is asked only if the certificate carries a
/// quote, and it is asked about exactly the value of the quote extension.
/// Its answer is not known in advance: the result is what
/// [`certificate_verdict`] gives for the certificate and that answer.
pub fn verify_binding<A: AttestationService>(cert_der: &[u8], attestation: &A) -> (verdict: Result<
    VerifiedMeasurement,
    VerifyError,
>)
    ensures
        binding_outcome(attestation, cert_der@, verdict_view(verdict)),
        embedded_quote(cert_der@) is None <==> verdict == Err::<VerifiedMeasurement, VerifyError>(
            VerifyError::NoQuoteExtension,
        ),
        verdict matches Ok(measurement) ==> certified_key(cert_der@) matches Some(public_key)
            && measurement@.report_data == sha512(public_key),
        verdict matches Err(reason) ==> reason != VerifyError::PolicyRejected,
{
    let ghost parsed = x509_certificate(cert_der@, REPORT_OID@);
    let certificate = match parse_certificate(cert_der, REPORT_OID.as_slice()) {
        Some(certificate) => certificate,
        None => {
            return Err(VerifyError::NoQuoteExtension);
        },
    };
    let quote = match certificate.quote {
        Some(quote) => quote,
        None => {
            return Err(VerifyError::NoQuoteExtension);
        },
    };
    assert(embedded_quote(cert_der@) == Some(quote@));
    let asked = quote.as_slice();
    let attested = attestation.verify_quote(asked);
    let ghost answer = attested;
    assert(service_answer(attestation, quote@, answer)) by {
        assert(asked@ == quote@);
        assert(call_ensures(A::verify_quote, (attestation, asked), answer));
    }
    let verdict = check_binding(certificate.public_key, attested);
    assert(verdict_view(verdict) == certificate_verdict(parsed, attested_view(answer)));
    assert(service_answer(attestation, embedded_quote(cert_der@)->Some_0, answer));
    verdict
}

/// Verifies a peer's certificate against the policy: the binding check, then
/// the policy. The peer is accepted only if both accept.
///
/// The attestation service is asked only if the certificate carries a
/// quote, and it is asked about exactly the value of the quote extension.
/// The result is what [`certificate_verdict`] and [`policy_verdict`] give for
/// the certificate, the policy and that answer.
pub fn verify_quote<A: AttestationService>(
    cert_der: &[u8],
    config: &RaTlsConfig,
    attestation: &A,
) -> (verdict: Result<VerifiedMeasurement, VerifyError>)
    ensures
        verification_outcome(attestation, config@, cert_der@, verdict_view(verdict)),
        embedded_quote(cert_der@) is None <==> verdict == Err::<VerifiedMeasurement, VerifyError>(
            VerifyError::NoQuoteExtension,
        ),
        verdict matches Ok(measurement) ==> {
            &&& certified_key(cert_der@) matches Some(public_key)
            &&& measurement@.report_data == sha512(public_key)
            &&& config@.accepts(measurement@)
        },
{
    let measurement = match verify_binding(cert_der, attestation) {
        Ok(measurement) => measurement,
        Err(reason) => {
            return Err(reason);
        },
    };
    match config.is_allowed_quote(&measurement) {
        Ok(()) => Ok(measurement),
        Err(reason) => Err(reason),
    }
}

/// A quote is bound to the key it was produced for: if the report data of a
/// genuine quote is the digest of one key, the quote does not verify against
/// a key with another digest.
pub proof fn lemma_quote_is_bound_to_its_key(key_a: Seq<u8>, key_b: Seq<u8>, quote: Measurement)
    requires
        quote.report_data == sha512(key_a),
        sha512(key_a) != sha512(key_b),
    ensures
        binding_verdict(key_a, Some(quote)) == Ok::<Measurement, VerifyError>(quote),
        binding_verdict(key_b, Some(quote)) == Err::<Measurement, VerifyError>(
            VerifyError::BindingMismatch,
        ),
{
}

/// A measurement that passes the binding check is the one the attestation
/// service reported, and its report data is the digest of the public key.
pub proof fn lemma_bound_measurement_matches_key(
    public_key: Seq<u8>,
    attested: Option<Measurement>,
)
    ensures
        binding_verdict(public_key, attested) matches Ok(measurement) ==> attested == Some(
            measurement,
        ) && measurement.report_data == sha512(public_key),
{
}

/// A certificate without a quote extension is rejected for that reason,
/// whatever the attestation service and the policy would say.
pub proof fn lemma_missing_extension_is_rejected(
    certificate: Option<(Seq<u8>, Option<Seq<u8>>)>,
    attested: Option<Measurement>,
    policy: AttestationPolicy,
)
    requires
        certificate matches Some((_, quote)) ==> quote is None,
    ensures
        certificate_verdict(certificate, attested) == Err::<Measurement, VerifyError>(
            VerifyError::NoQuoteExtension,
        ),
        policy_verdict(policy, certificate_verdict(certificate, attested)) == Err::<
            Measurement,
            VerifyError,
        >(VerifyError::NoQuoteExtension),
{
}

/// A peer is accepted exactly when its certificate carries a quote, the
/// attestation service finds the quote genuine, the quote was produced for
/// the certificate's key, and the policy accepts what it reports.
pub proof fn lemma_acceptance(
    certificate: Option<(Seq<u8>, Option<Seq<u8>>)>,
    attested: Option<Measurement>,
    policy: AttestationPolicy,
)
    ensures
        policy_verdict(policy, certificate_verdict(certificate, attested)) is Ok <==> {
            &&& certificate matches Some((public_key, Some(_)))
            &&& attested matches Some(measurement)
            &&& measurement.report_data == sha512(public_key)
            &&& policy.accepts(measurement)
        },
{
}

} // verus!
