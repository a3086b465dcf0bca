//! The certificate extension that carries the quote, and what the library
//! reads from a peer's certificate.

use vstd::prelude::*;
use x509_parser::certificate::X509CertificateParser;
use x509_parser::nom::Parser;
use x509_parser::oid_registry::Oid;

verus! {

/// Object identifier `1.2.840.113741.1`, under which the quote is embedded.
pub const REPORT_OID: [u64; 5] = [1, 2, 840, 113741, 1];

/// A certificate extension as it is handed to the certificate generator.
#[derive(Debug)]
pub struct QuoteExtension {
    /// Components of the object identifier that tags the extension.
    pub oid: Vec<u64>,
    /// Whether a verifier that does not know the extension must reject the
    /// certificate.
    pub critical: bool,
    /// The value of the extension.
    pub content: Vec<u8>,
}

/// Wraps raw quote bytes into the extension that carries them: tagged with
/// [`REPORT_OID`], not critical, the bytes unchanged.
pub fn encode_quote(quote: Vec<u8>) -> (extension: QuoteExtension)
    ensures
        extension.oid@ == REPORT_OID@,
        !extension.critical,
        extension.content@ == quote@,
{
    let mut oid: Vec<u64> = Vec::new();
    let mut i: usize = 0;
    while i < 5
        invariant
            i <= 5,
            oid@ == REPORT_OID@.subrange(0, i as int),
        decreases 5 - i,
    {
        oid.push(REPORT_OID[i]);
        assert(oid@ =~= REPORT_OID@.subrange(0, i as int + 1));
        i = i + 1;
    }
    assert(oid@ =~= REPORT_OID@);
    QuoteExtension { oid, critical: false, content: quote }
}

/// What the library reads from a certificate.
#[derive(Debug)]
pub struct PeerCertificate {
    /// The subject's public key: the contents of the bit string in the
    /// certificate's subject public key info.
    pub public_key: Vec<u8>,
    /// The value of the quote extension, where the certificate holds exactly
    /// one.
    pub quote: Option<Vec<u8>>,
}

/// The model of optional bytes.
pub open spec fn optional_bytes(bytes: Option<Vec<u8>>) -> Option<Seq<u8>> {
    match bytes {
        Some(b) => Some(b@),
        None => None,
    }
}

/// The model of what parsing a certificate returned.
pub open spec fn parsed_view(parsed: Option<PeerCertificate>) -> Option<(Seq<u8>, Option<Seq<u8>>)> {
    match parsed {
        Some(certificate) => Some((certificate.public_key@, optional_bytes(certificate.quote))),
        None => None,
    }
}

/// What an X.509 parser reads from DER bytes. `None` when the bytes are not a
/// certificate. Otherwise the subject's public key, and the value of the
/// extension tagged with `extension_oid` where the certificate holds exactly
/// one such extension.
pub uninterp spec fn x509_certificate(der: Seq<u8>, extension_oid: Seq<u64>) -> Option<
    (Seq<u8>, Option<Seq<u8>>),
>;

/// The quote that a certificate carries, if any.
pub open spec fn embedded_quote(der: Seq<u8>) -> Option<Seq<u8>> {
    match x509_certificate(der, REPORT_OID@) {
        Some((_, quote)) => quote,
        None => None,
    }
}

/// The public key that a certificate certifies, if the bytes are a
/// certificate.
pub open spec fn certified_key(der: Seq<u8>) -> Option<Seq<u8>> {
    match x509_certificate(der, REPORT_OID@) {
        Some((key, _)) => Some(key),
        None => None,
    }
}

/// Parses a certificate with `x509_parser`: `X509CertificateParser::parse`
/// with deep parsing of extensions, then `get_extension_unique` for
/// `extension_oid` and `public_key`. The contract claims only that the result
/// is a function of the two arguments. The result is `None` where the bytes do
/// not parse or the identifier is not well formed; the quote is `None` where
/// the extension is absent or occurs more than once.
#[verifier::external_body]
pub(crate) fn parse_certificate(der: &[u8], extension_oid: &[u64]) -> (parsed: Option<
    PeerCertificate,
>)
    ensures
        parsed_view(parsed) == x509_certificate(der@, extension_oid@),
{
    let oid = Oid::from(extension_oid).ok()?;
    let mut parser = X509CertificateParser::new().with_deep_parse_extensions(true);
    let (_, x509) = parser.parse(der).ok()?;
    let quote = match x509.get_extension_unique(&oid) {
        Ok(Some(extension)) => Some(extension.value.to_vec()),
        Ok(None) => None,
        Err(_) => None,
    };
    Some(PeerCertificate { public_key: x509.public_key().subject_public_key.data.to_vec(), quote })
}

/// The names that the library reads from a certificate.
#[derive(Debug)]
pub struct CertificateNames {
    /// The subject's distinguished name in DER.
    pub subject: Vec<u8>,
    /// The issuer's distinguished name in DER.
    pub issuer: Vec<u8>,
    /// The first common name of the subject, where it is text.
    pub common_name: Option<String>,
    /// The first country of the subject, where it is text.
    pub country: Option<String>,
    /// The first organization of the subject, where it is text.
    pub organization: Option<String>,
}

/// The model of optional text.
pub open spec fn optional_text(text: Option<String>) -> Option<Seq<char>> {
    match text {
        Some(t) => Some(t@),
        None => None,
    }
}

/// The model of what reading the names of a certificate returned: subject,
/// issuer, and the subject's common name, country and organization.
pub open spec fn names_view(names: Option<CertificateNames>) -> Option<
    (Seq<u8>, Seq<u8>, Option<Seq<char>>, Option<Seq<char>>, Option<Seq<char>>),
> {
    match names {
        Some(n) => Some(
            (
                n.subject@,
                n.issuer@,
                optional_text(n.common_name),
                optional_text(n.country),
                optional_text(n.organization),
            ),
        ),
        None => None,
    }
}

/// The names that an X.509 parser reads from DER bytes. `None` when the bytes
/// are not a certificate. Otherwise the subject's and the issuer's
/// distinguished name as they are encoded, and the first common name, the
/// first country and the first organization of the subject, each where it is
/// present and is text.
pub uninterp spec fn x509_names(der: Seq<u8>) -> Option<
    (Seq<u8>, Seq<u8>, Option<Seq<char>>, Option<Seq<char>>, Option<Seq<char>>),
>;

/// Reads the names of a certificate with `x509_parser`:
/// `X509CertificateParser::parse`, then `subject` and `issuer` with `as_raw`,
/// and `iter_common_name`, `iter_country` and `iter_organization` of the
/// subject with `as_str` on the first attribute. The contract claims only
/// that the result is a function of the bytes.
#[verifier::external_body]
pub(crate) fn parse_names(der: &[u8]) -> (names: Option<CertificateNames>)
    ensures
        names_view(names) == x509_names(der@),
{
    let (_, x509) = X509CertificateParser::new().parse(der).ok()?;
    let subject = x509.subject();
    let common_name = subject.iter_common_name().next().and_then(|a| a.as_str().ok());
    let country = subject.iter_country().next().and_then(|a| a.as_str().ok());
    let organization = subject.iter_organization().next().and_then(|a| a.as_str().ok());
    Some(
        CertificateNames {
            subject: subject.as_raw().to_vec(),
            issuer: x509.issuer().as_raw().to_vec(),
            common_name: common_name.map(String::from),
            country: country.map(String::from),
            organization: organization.map(String::from),
        },
    )
}

/// The model of what reading the signature of a certificate returned.
pub open spec fn signature_view(parsed: Option<(Vec<u8>, Vec<u8>)>) -> Option<
    (Seq<u8>, Seq<u8>),
> {
    match parsed {
        Some((signed, signature)) => Some((signed@, signature@)),
        None => None,
    }
}

/// What an X.509 parser reads from DER bytes of the certificate's signature.
/// `None` when the bytes are not a certificate. Otherwise the bytes that were
/// signed, as they are encoded, and the signature value.
pub uninterp spec fn x509_signature(der: Seq<u8>) -> Option<(Seq<u8>, Seq<u8>)>;

/// Reads the signed part and the signature of a certificate with
/// `x509_parser`: `X509CertificateParser::parse`, then the raw bytes of
/// `tbs_certificate` and the data of `signature_value`. The contract claims
/// only that the result is a function of the bytes.
#[verifier::external_body]
pub(crate) fn parse_signature(der: &[u8]) -> (parsed: Option<(Vec<u8>, Vec<u8>)>)
    ensures
        signature_view(parsed) == x509_signature(der@),
{
    let (_, x509) = X509CertificateParser::new().parse(der).ok()?;
    Some((x509.tbs_certificate.as_ref().to_vec(), x509.signature_value.data.to_vec()))
}

/// Reads the quote out of a DER certificate. `None` is the ordinary answer
/// for a peer that is not attested; it is also the answer for bytes that are
/// not a certificate.
pub fn decode_quote(cert_der: &[u8]) -> (quote: Option<Vec<u8>>)
    ensures
        optional_bytes(quote) == embedded_quote(cert_der@),
{
    match parse_certificate(cert_der, REPORT_OID.as_slice()) {
        Some(certificate) => certificate.quote,
        None => None,
    }
}

} // verus!
