//! Issuing attested identities: a fresh key pair, a quote over the digest of
//! its public key, and a self-signed certificate that carries the quote.

use rcgen::{Certificate, CertificateParams, CustomExtension, DistinguishedName, DnType};
use vstd::prelude::*;

use crate::attestation::{AttestationError, AttestationService};
use crate::binding::certificate_verdict;
use crate::error::{BuildError, RaTlsError, VerifyError};
use crate::extension::{
    embedded_quote, encode_quote, optional_text, parse_certificate, parse_names,
    parse_signature, x509_certificate, x509_names, x509_signature, QuoteExtension, REPORT_OID,
};
use crate::measurement::{bytes_equal, Measurement};
use crate::utils::{
    ecdsa_p256_sha256_valid, hash_sha512, sha512, verify_ecdsa_p256_sha256,
};

verus! {

/// `rcgen::KeyPair`, the certificate generator's signing key. The library
/// carries it from generation to signing and never looks inside.
#[verifier::external_type_specification]
#[verifier::external_body]
pub struct ExSigningKey(rcgen::KeyPair);

/// `rcgen::Error`, the certificate generator's error. The library only
/// renders it as text.
#[verifier::external_type_specification]
#[verifier::external_body]
pub struct ExGeneratorError(rcgen::Error);

/// An ephemeral signing key for one identity.
pub struct IdentityKeyPair {
    signer: rcgen::KeyPair,
    public_key: Vec<u8>,
    private_key_der: Vec<u8>,
}

/// The subject of an issued certificate, which is also its issuer.
#[derive(Debug)]
pub struct CertificateSubject {
    pub common_name: String,
    pub country: String,
    pub organization: String,
}

/// The model of a [`CertificateSubject`].
pub struct SubjectNames {
    pub common_name: Seq<char>,
    pub country: Seq<char>,
    pub organization: Seq<char>,
}

impl View for CertificateSubject {
    type V = SubjectNames;

    open spec fn view(&self) -> SubjectNames {
        SubjectNames {
            common_name: self.common_name@,
            country: self.country@,
            organization: self.organization@,
        }
    }
}

/// A usable TLS identity: a certificate and the private key that belongs to
/// it, both in DER.
#[derive(Debug)]
pub struct RaTlsCertifiedKey {
    pub cert_der: Vec<u8>,
    pub key_der: Vec<u8>,
}

/// Whether a DER writer can encode the object identifier: at least two
/// components, the first below 3, and the second below 40 unless the first
/// is 2.
pub open spec fn encodable_oid(oid: Seq<u64>) -> bool {
    &&& oid.len() >= 2
    &&& oid[0] < 3
    &&& oid[1] < 18446744073709551535
    &&& (oid[0] >= 2 || oid[1] < 40)
}

/// Generates a key pair with `rcgen::KeyPair::generate`, for the signature
/// algorithm of `rcgen::CertificateParams::default`, and reads its public key
/// with `public_key_raw` and its PKCS#8 encoding with `serialize_der`. The
/// key is random: the contract claims nothing of it.
#[verifier::external_body]
fn generate_key_pair() -> Result<IdentityKeyPair, rcgen::Error> {
    let signer = rcgen::KeyPair::generate(CertificateParams::default().alg)?;
    Ok(
        IdentityKeyPair {
            public_key: signer.public_key_raw().to_vec(),
            private_key_der: signer.serialize_der(),
            signer,
        },
    )
}

/// Renders an error of the certificate generator with its `Display` impl.
#[verifier::external_body]
fn generator_error_text(error: &rcgen::Error) -> String {
    error.to_string()
}

/// Issues a self-signed certificate with `rcgen::Certificate::from_params`
/// and `serialize_der`: the subject's three attributes as the distinguished
/// name, the extension as the only custom extension, all else as
/// `CertificateParams::default` has it. The signature is randomized: the
/// contract claims nothing of the bytes. The DER writer panics on an object
/// identifier that it cannot encode, so `requires` leaves those out.
#[verifier::external_body]
fn self_signed_der(
    signer: rcgen::KeyPair,
    subject: &CertificateSubject,
    extension: &QuoteExtension,
) -> Result<Vec<u8>, rcgen::Error>
    requires
        encodable_oid(extension.oid@),
{
    let mut distinguished_name = DistinguishedName::new();
    distinguished_name.push(DnType::CommonName, subject.common_name.clone());
    distinguished_name.push(DnType::CountryName, subject.country.clone());
    distinguished_name.push(DnType::OrganizationName, subject.organization.clone());
    let mut custom = CustomExtension::from_oid_content(&extension.oid, extension.content.clone());
    custom.set_criticality(extension.critical);
    let mut params = CertificateParams::default();
    params.key_pair = Some(signer);
    params.distinguished_name = distinguished_name;
    params.custom_extensions = vec![custom];
    Certificate::from_params(params)?.serialize_der()
}

impl IdentityKeyPair {
    /// The public key, as it stands in a certificate issued for this pair.
    pub closed spec fn public_key(&self) -> Seq<u8> {
        self.public_key@
    }

    /// The private key in PKCS#8.
    pub closed spec fn private_key(&self) -> Seq<u8> {
        self.private_key_der@
    }

    /// Generates a fresh key pair: the key pair that the generator returned,
    /// or a key generation failure with the generator's account of it.
    pub fn generate() -> (generated: Result<IdentityKeyPair, BuildError>)
        ensures
            key_generated(generated),
            generated matches Err(error) ==> error is KeyGeneration,
    {
        let outcome = generate_key_pair();
        match outcome {
            Ok(key_pair) => Ok(key_pair),
            Err(error) => {
                let text = generator_error_text(&error);
                assert(generator_text(error, text));
                Err(BuildError::KeyGeneration(text))
            },
        }
    }

    /// The raw bytes of the public key.
    pub fn public_key_raw(&self) -> (bytes: Vec<u8>)
        ensures
            bytes@ == self.public_key(),
    {
        self.public_key.clone()
    }

    /// The report data that binds a quote to this key pair: the SHA-512
    /// digest of its public key.
    pub fn report_data(&self) -> (digest: [u8; 64])
        ensures
            digest@ == sha512(self.public_key()),
    {
        hash_sha512(self.public_key.clone())
    }
}

/// Whether `text` is the certificate generator's rendering of `error`.
pub closed spec fn generator_text(error: rcgen::Error, text: String) -> bool {
    call_ensures(generator_error_text, (&error,), text)
}

/// Whether `generated` is what key generation makes of some outcome of the
/// generator: the key pair that it returned, or a key generation failure
/// with its rendering of the error.
pub closed spec fn key_generated(generated: Result<IdentityKeyPair, BuildError>) -> bool {
    exists|outcome: Result<IdentityKeyPair, rcgen::Error>|
        #[trigger] call_ensures(generate_key_pair, (), outcome) && match outcome {
            Ok(key_pair) => generated == Ok::<IdentityKeyPair, BuildError>(key_pair),
            Err(error) => generated matches Err(BuildError::KeyGeneration(text)) && generator_text(
                error,
                text,
            ),
        }
}

/// Whether `produced` is a possible answer of the certificate generator when
/// it is handed the key pair's signing key, a subject with the given names,
/// and the extension that carries exactly `quote`: tagged with
/// [`REPORT_OID`] and not critical.
pub closed spec fn generator_answer(
    key_pair: IdentityKeyPair,
    subject: SubjectNames,
    quote: Seq<u8>,
    produced: Result<Vec<u8>, rcgen::Error>,
) -> bool {
    exists|handed: CertificateSubject, extension: QuoteExtension|
        {
            &&& handed@ == subject
            &&& extension.oid@ == REPORT_OID@
            &&& !extension.critical
            &&& extension.content@ == quote
            &&& #[trigger] call_ensures(
                self_signed_der,
                (key_pair.signer, &handed, &extension),
                produced,
            )
        }
}

/// Whether the certificate in `der` is signed with the private key that
/// belongs to `public_key`: the signature that an X.509 parser finds in it
/// is a valid ECDSA signature of the signed part under that key.
pub open spec fn signed_by(der: Seq<u8>, public_key: Seq<u8>) -> bool {
    x509_signature(der) matches Some((signed, signature)) && ecdsa_p256_sha256_valid(
        public_key,
        signed,
        signature,
    )
}

/// Whether an X.509 parser finds in `der` a self-signed certificate: one
/// that its subject issued to itself and signed with its own key, whose
/// subject has the given names, that certifies `public_key` and carries
/// exactly `quote`.
pub open spec fn holds_identity(
    der: Seq<u8>,
    subject: SubjectNames,
    public_key: Seq<u8>,
    quote: Seq<u8>,
) -> bool {
    &&& x509_certificate(der, REPORT_OID@) == Some((public_key, Some(quote)))
    &&& signed_by(der, public_key)
    &&& x509_names(der) matches Some((subject_name, issuer_name, common_name, country, organization))
    &&& issuer_name == subject_name
    &&& common_name == Some(subject.common_name)
    &&& country == Some(subject.country)
    &&& organization == Some(subject.organization)
}

/// What [`accept_issued`] returns: the identity made of the certificate and
/// the key where the certificate holds the identity, and a serialization
/// failure where it does not.
pub open spec fn acceptance(
    cert_der: Seq<u8>,
    subject: SubjectNames,
    public_key: Seq<u8>,
    quote: Seq<u8>,
    key_der: Seq<u8>,
    issued: Result<RaTlsCertifiedKey, BuildError>,
) -> bool {
    if holds_identity(cert_der, subject, public_key, quote) {
        issued matches Ok(identity) && identity.cert_der@ == cert_der && identity.key_der@
            == key_der
    } else {
        issued matches Err(BuildError::Serialization(text)) && text@
            == "Issued certificate does not hold the identity"@
    }
}

/// What issuing returns for a key pair, a subject and a quote: what
/// [`accept_issued`] makes of the certificate that the generator produced,
/// or a serialization failure with the generator's rendering of its error.
pub open spec fn issuance(
    key_pair: IdentityKeyPair,
    subject: SubjectNames,
    quote: Seq<u8>,
    issued: Result<RaTlsCertifiedKey, BuildError>,
) -> bool {
    exists|produced: Result<Vec<u8>, rcgen::Error>|
        #[trigger] generator_answer(key_pair, subject, quote, produced) && match produced {
            Ok(cert_der) => acceptance(
                cert_der@,
                subject,
                key_pair.public_key(),
                quote,
                key_pair.private_key(),
                issued,
            ),
            Err(error) => issued matches Err(BuildError::Serialization(text)) && generator_text(
                error,
                text,
            ),
        }
}

/// What building returns once the key pair is there: an attestation failure
/// with the service's reason where the service gave no quote for the digest
/// of the public key, and else what issuing returns for the quote it gave.
pub open spec fn attested_issuance<A: AttestationService>(
    attestation: &A,
    key_pair: IdentityKeyPair,
    subject: SubjectNames,
    built: Result<RaTlsCertifiedKey, BuildError>,
) -> bool {
    exists|answer: Result<Vec<u8>, AttestationError>|
        #[trigger] quote_answer(attestation, key_pair.public_key(), answer) && match answer {
            Ok(quote) => issuance(key_pair, subject, quote@, built),
            Err(error) => built == Err::<RaTlsCertifiedKey, BuildError>(
                BuildError::AttestationFailure(error.reason),
            ),
        }
}

/// What building returns: the failure of key generation, and else what
/// [`attested_issuance`] gives for the generated key pair.
pub open spec fn construction<A: AttestationService>(
    attestation: &A,
    subject: SubjectNames,
    built: Result<RaTlsCertifiedKey, BuildError>,
) -> bool {
    exists|generated: Result<IdentityKeyPair, BuildError>|
        #[trigger] key_generated(generated) && match generated {
            Ok(key_pair) => attested_issuance(attestation, key_pair, subject, built),
            Err(error) => built == Err::<RaTlsCertifiedKey, BuildError>(error),
        }
}

/// Whether an identity is attested: it holds the private key of a key pair,
/// and its certificate holds the subject's names, the pair's public key and
/// exactly a quote that the attestation service produced for the digest of
/// that public key.
pub open spec fn attested_identity<A: AttestationService>(
    attestation: &A,
    subject: SubjectNames,
    identity: RaTlsCertifiedKey,
) -> bool {
    exists|key_pair: IdentityKeyPair, quote: Vec<u8>|
        {
            &&& #[trigger] quote_answer(
                attestation,
                key_pair.public_key(),
                Ok::<Vec<u8>, AttestationError>(quote),
            )
            &&& identity.key_der@ == key_pair.private_key()
            &&& holds_identity(identity.cert_der@, subject, key_pair.public_key(), quote@)
        }
}

/// How a build result is reported: an identity as it is, a failure as a
/// certificate build error with the same reason.
pub open spec fn reported(
    inner: Result<RaTlsCertifiedKey, BuildError>,
    built: Result<RaTlsCertifiedKey, RaTlsError>,
) -> bool {
    match inner {
        Ok(identity) => built == Ok::<RaTlsCertifiedKey, RaTlsError>(identity),
        Err(error) => built matches Err(RaTlsError::CertificateBuildError(reason)) && reason@
            == error.spec_reason(),
    }
}

/// Whether the text that was found is the text that is expected.
fn text_is(found: &Option<String>, expected: &String) -> (same: bool)
    ensures
        same == (optional_text(*found) == Some(expected@)),
{
    match found {
        Some(text) => *text == *expected,
        None => false,
    }
}

/// Accepts a certificate that the generator produced as the identity of a
/// key pair, if it holds that identity. The certificate is read back: it is
/// accepted only if a parser finds in it a certificate that the subject
/// issued to itself and signed with its own key, with the subject's names,
/// the public key and exactly the quote.
pub fn accept_issued(
    cert_der: Vec<u8>,
    subject: &CertificateSubject,
    public_key: &[u8],
    quote: &[u8],
    key_der: Vec<u8>,
) -> (issued: Result<RaTlsCertifiedKey, BuildError>)
    ensures
        acceptance(cert_der@, subject@, public_key@, quote@, key_der@, issued),
{
    let carried = match parse_certificate(cert_der.as_slice(), REPORT_OID.as_slice()) {
        Some(certificate) => match certificate.quote {
            Some(embedded) => bytes_equal(embedded.as_slice(), quote) && bytes_equal(
                certificate.public_key.as_slice(),
                public_key,
            ),
            None => false,
        },
        None => false,
    };
    let named = match parse_names(cert_der.as_slice()) {
        Some(names) => bytes_equal(names.issuer.as_slice(), names.subject.as_slice()) && text_is(
            &names.common_name,
            &subject.common_name,
        ) && text_is(&names.country, &subject.country) && text_is(
            &names.organization,
            &subject.organization,
        ),
        None => false,
    };
    let signed = match parse_signature(cert_der.as_slice()) {
        Some((signed, signature)) => verify_ecdsa_p256_sha256(
            public_key,
            signed.as_slice(),
            signature.as_slice(),
        ),
        None => false,
    };
    if carried && signed && named {
        Ok(RaTlsCertifiedKey { cert_der, key_der })
    } else {
        Err(
            BuildError::Serialization(
                String::from_str("Issued certificate does not hold the identity"),
            ),
        )
    }
}

/// Whether `answer` is a possible answer of the attestation service when it
/// is asked for a quote over the SHA-512 digest of `public_key`.
pub open spec fn quote_answer<A: AttestationService>(
    attestation: &A,
    public_key: Seq<u8>,
    answer: Result<Vec<u8>, AttestationError>,
) -> bool {
    exists|report_data: [u8; 64]|
        report_data@ == sha512(public_key) && #[trigger] call_ensures(
            A::generate_quote,
            (attestation, &report_data),
            answer,
        )
}

/// What building makes of the attestation service's answer: the quote, or
/// an attestation failure with the service's reason.
pub open spec fn quote_outcome(answer: Result<Vec<u8>, AttestationError>) -> Result<
    Vec<u8>,
    BuildError,
> {
    match answer {
        Ok(quote) => Ok(quote),
        Err(error) => Err(BuildError::AttestationFailure(error.reason)),
    }
}

/// Builds self-signed certificates that carry an attestation quote.
pub struct RaTlsCertificateBuilder {
    common_name: String,
}

impl Default for RaTlsCertificateBuilder {
    fn default() -> (builder: Self)
        ensures
            builder.common_name() == "RATLS"@,
    {
        RaTlsCertificateBuilder { common_name: String::from_str("RATLS") }
    }
}

impl RaTlsCertificateBuilder {
    /// The common name that issued certificates carry.
    pub closed spec fn common_name(&self) -> Seq<char> {
        self.common_name@
    }

    /// A builder with the common name `RATLS`.
    pub fn new() -> (builder: Self)
        ensures
            builder.common_name() == "RATLS"@,
    {
        RaTlsCertificateBuilder { common_name: String::from_str("RATLS") }
    }

    /// The same builder with the common name replaced by `cn`.
    pub fn with_common_name(self, cn: String) -> (builder: Self)
        ensures
            builder.common_name() == cn@,
    {
        RaTlsCertificateBuilder { common_name: cn }
    }

    /// The names of the subject of issued certificates: the builder's common
    /// name with the fixed country and organization.
    pub open spec fn subject_names(&self) -> SubjectNames {
        SubjectNames {
            common_name: self.common_name(),
            country: "US"@,
            organization: "Aggregion"@,
        }
    }

    /// The subject of issued certificates: the builder's common name with the
    /// fixed country and organization.
    pub fn subject(&self) -> (subject: CertificateSubject)
        ensures
            subject.common_name@ == self.common_name(),
            subject.country@ == "US"@,
            subject.organization@ == "Aggregion"@,
            subject@ == self.subject_names(),
    {
        CertificateSubject {
            common_name: self.common_name.clone(),
            country: String::from_str("US"),
            organization: String::from_str("Aggregion"),
        }
    }

    /// Asks the attestation service for a quote over the key pair's report
    /// data, the SHA-512 digest of its public key, and returns what the
    /// service answered: the quote, or an attestation failure with the
    /// service's reason.
    fn get_quote<A: AttestationService>(
        &self,
        key_pair: &IdentityKeyPair,
        attestation: &A,
    ) -> (quote: Result<Vec<u8>, BuildError>)
        ensures
            exists|answer: Result<Vec<u8>, AttestationError>|
                #[trigger] quote_answer(attestation, key_pair.public_key(), answer) && quote
                    == quote_outcome(answer),
            quote matches Err(error) ==> error is AttestationFailure,
    {
        let report_data = key_pair.report_data();
        let answer = attestation.generate_quote(&report_data);
        assert(quote_answer(attestation, key_pair.public_key(), answer));
        match answer {
            Ok(quote) => Ok(quote),
            Err(error) => Err(BuildError::AttestationFailure(error.reason)),
        }
    }

    /// Issues the identity for a key pair and the quote that was produced for
    /// it. The generator is handed the key pair's signing key, the builder's
    /// subject and the extension that carries the quote, and what it produces
    /// goes through [`accept_issued`].
    ///
    /// An identity that is returned holds the key pair's private key and a
    /// certificate in which a parser finds a certificate that the subject
    /// issued to itself, with the builder's names, the key pair's public key
    /// and exactly the given quote.
    pub fn issue(&self, key_pair: IdentityKeyPair, quote: Vec<u8>) -> (issued: Result<
        RaTlsCertifiedKey,
        BuildError,
    >)
        ensures
            issuance(key_pair, self.subject_names(), quote@, issued),
            issued matches Ok(identity) ==> {
                &&& identity.key_der@ == key_pair.private_key()
                &&& holds_identity(
                    identity.cert_der@,
                    self.subject_names(),
                    key_pair.public_key(),
                    quote@,
                )
            },
            issued matches Err(error) ==> error is Serialization,
    {
        let subject = self.subject();
        let extension = encode_quote(quote.clone());
        let IdentityKeyPair { signer, public_key, private_key_der } = key_pair;
        let produced = self_signed_der(signer, &subject, &extension);
        assert(generator_answer(key_pair, self.subject_names(), quote@, produced));
        match produced {
            Ok(cert_der) => accept_issued(
                cert_der,
                &subject,
                public_key.as_slice(),
                quote.as_slice(),
                private_key_der,
            ),
            Err(error) => {
                let text = generator_error_text(&error);
                assert(generator_text(error, text));
                Err(BuildError::Serialization(text))
            },
        }
    }

    /// Builds an identity: a fresh key pair, a quote from the attestation
    /// service over the digest of its public key, and the certificate that
    /// carries the quote.
    ///
    /// The key pair, the quote and the certificate are not known in advance.
    /// The result is what [`construction`] gives for them: the first step
    /// that fails decides the error, and an identity is returned only if it
    /// holds the private key of the generated pair and a certificate with
    /// the builder's names, the pair's public key and exactly the quote that
    /// the attestation service produced for the digest of that key.
    pub fn build_internal<A: AttestationService>(&self, attestation: &A) -> (built: Result<
        RaTlsCertifiedKey,
        BuildError,
    >)
        ensures
            construction(attestation, self.subject_names(), built),
            built matches Ok(identity) ==> attested_identity(
                attestation,
                self.subject_names(),
                identity,
            ),
            built matches Ok(identity) ==> embedded_quote(identity.cert_der@) is Some,
            built matches Err(BuildError::AttestationFailure(reason)) ==> exists|key: Seq<u8>|
                #[trigger] quote_answer(
                    attestation,
                    key,
                    Err::<Vec<u8>, AttestationError>((AttestationError { reason })),
                ),
            built matches Err(BuildError::Serialization(text)) ==> exists|key: Seq<u8>, quote: Vec<u8>|
                #[trigger] quote_answer(attestation, key, Ok::<Vec<u8>, AttestationError>(quote)),
    {
        let generated = IdentityKeyPair::generate();
        let key_pair = match generated {
            Ok(key_pair) => key_pair,
            Err(error) => {
                return Err(error);
            },
        };
        let ghost pair = key_pair;
        let ghost public_key = key_pair.public_key();
        let got = self.get_quote(&key_pair, attestation);
        let ghost answer = choose|answer: Result<Vec<u8>, AttestationError>|
            #[trigger] quote_answer(attestation, public_key, answer) && got == quote_outcome(
                answer,
            );
        let quote = match got {
            Ok(quote) => quote,
            Err(error) => {
                proof {
                    let failed = Err::<Vec<u8>, AttestationError>(
                        (AttestationError { reason: error->AttestationFailure_0 }),
                    );
                    assert(failed == answer);
                    assert(exists|key: Seq<u8>| #[trigger] quote_answer(attestation, key, failed));
                    assert(attested_issuance(
                        attestation,
                        pair,
                        self.subject_names(),
                        Err::<RaTlsCertifiedKey, BuildError>(error),
                    ));
                }
                return Err(error);
            },
        };
        let ghost produced = quote;
        assert(answer == Ok::<Vec<u8>, AttestationError>(produced));
        let built = self.issue(key_pair, quote);
        proof {
            assert(attested_issuance(attestation, pair, self.subject_names(), built));
            assert(quote_answer(
                attestation,
                public_key,
                Ok::<Vec<u8>, AttestationError>(produced),
            ));
        }
        built
    }

    /// Builds an identity and reports a failure as a certificate build error
    /// with the reason of the step that failed.
    ///
    /// The result is what [`reported`] makes of a result that
    /// [`construction`] gives.
    pub fn build<A: AttestationService>(&self, attestation: &A) -> (built: Result<
        RaTlsCertifiedKey,
        RaTlsError,
    >)
        ensures
            exists|inner: Result<RaTlsCertifiedKey, BuildError>|
                #[trigger] construction(attestation, self.subject_names(), inner) && reported(
                    inner,
                    built,
                ),
            built matches Ok(identity) ==> attested_identity(
                attestation,
                self.subject_names(),
                identity,
            ),
            built matches Ok(identity) ==> embedded_quote(identity.cert_der@) is Some,
            built matches Err(error) ==> error is CertificateBuildError,
    {
        let inner = self.build_internal(attestation);
        match inner {
            Ok(identity) => Ok(identity),
            Err(error) => Err(RaTlsError::from_build_error(error)),
        }
    }
}

/// An issued identity verifies: if a certificate holds a public key and a
/// quote, and the attestation service finds the quote genuine and reports
/// the digest of that key as its report data, then the binding check returns
/// what the service reported.
pub proof fn lemma_issued_identity_verifies(
    cert_der: Seq<u8>,
    public_key: Seq<u8>,
    quote: Seq<u8>,
    reported: Measurement,
)
    requires
        x509_certificate(cert_der, REPORT_OID@) == Some((public_key, Some(quote))),
        reported.report_data == sha512(public_key),
    ensures
        certificate_verdict(x509_certificate(cert_der, REPORT_OID@), Some(reported)) == Ok::<
            Measurement,
            VerifyError,
        >(reported),
{
}

} // verus!
