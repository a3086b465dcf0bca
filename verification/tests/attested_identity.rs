use occlum_ratls::attestation::{AttestationError, AttestationService};
use occlum_ratls::binding::{check_binding, verify_binding, verify_quote};
use occlum_ratls::cert::{accept_issued, CertificateSubject, IdentityKeyPair, RaTlsCertificateBuilder};
use occlum_ratls::error::{BuildError, VerifyError};
use occlum_ratls::extension::{decode_quote, encode_quote, REPORT_OID};
use occlum_ratls::measurement::VerifiedMeasurement;
use occlum_ratls::prelude::{InstanceMeasurement, RaTlsConfig, SGXMeasurement};
use occlum_ratls::utils::hash_sha512;
use occlum_ratls::RaTlsError;
use x509_parser::prelude::{FromDer, X509Certificate};

const S1: [u8; 32] = [0x51; 32];
const S2: [u8; 32] = [0x52; 32];
const CODE: [u8; 32] = [0xc0; 32];

/// A software stand-in for the attestation hardware. A quote is the
/// environment's measurement followed by the report data.
struct SoftwareAttestation {
    signer: [u8; 32],
    product_id: u16,
}

impl AttestationService for SoftwareAttestation {
    fn generate_quote(&self, report_data: &[u8; 64]) -> Result<Vec<u8>, AttestationError> {
        let mut quote = Vec::new();
        quote.extend_from_slice(&self.signer);
        quote.extend_from_slice(&CODE);
        quote.extend_from_slice(&self.product_id.to_le_bytes());
        quote.extend_from_slice(&4u16.to_le_bytes());
        quote.extend_from_slice(report_data);
        Ok(quote)
    }

    fn verify_quote(&self, quote: &[u8]) -> Result<VerifiedMeasurement, AttestationError> {
        if quote.len() != 132 {
            return Err(AttestationError { reason: "malformed quote".to_string() });
        }
        let mut signer = [0u8; 32];
        signer.copy_from_slice(&quote[0..32]);
        let mut code = [0u8; 32];
        code.copy_from_slice(&quote[32..64]);
        let mut report_data = [0u8; 64];
        report_data.copy_from_slice(&quote[68..132]);
        Ok(VerifiedMeasurement {
            signer: SGXMeasurement::new(signer),
            code_measurement: SGXMeasurement::new(code),
            product_id: u16::from_le_bytes([quote[64], quote[65]]),
            version: u16::from_le_bytes([quote[66], quote[67]]),
            report_data,
        })
    }
}

/// A service whose hardware is not there.
struct AbsentAttestation;

impl AttestationService for AbsentAttestation {
    fn generate_quote(&self, _report_data: &[u8; 64]) -> Result<Vec<u8>, AttestationError> {
        Err(AttestationError { reason: "Failed to open /dev/sgx".to_string() })
    }

    fn verify_quote(&self, _quote: &[u8]) -> Result<VerifiedMeasurement, AttestationError> {
        Err(AttestationError { reason: "Failed to open /dev/sgx".to_string() })
    }
}

fn enclave(product_id: u16) -> SoftwareAttestation {
    SoftwareAttestation { signer: S1, product_id }
}

fn public_key_of(cert_der: &[u8]) -> Vec<u8> {
    let (_, certificate) = X509Certificate::from_der(cert_der).unwrap();
    certificate.public_key().subject_public_key.data.to_vec()
}

fn certificate_without_quote() -> Vec<u8> {
    rcgen::generate_simple_self_signed(vec!["localhost".to_string()])
        .unwrap()
        .serialize_der()
        .unwrap()
}

fn policy() -> RaTlsConfig {
    RaTlsConfig::new().allow_instance_measurement(
        InstanceMeasurement::new()
            .with_mrsigners(vec![SGXMeasurement::new(S1)])
            .with_product_ids(vec![1, 2]),
    )
}

#[test]
fn built_identity_round_trips() {
    let service = enclave(1);
    let identity = RaTlsCertificateBuilder::new().build(&service).unwrap();
    let expected = hash_sha512(public_key_of(&identity.cert_der));

    let quote = decode_quote(&identity.cert_der).unwrap();
    assert_eq!(quote, service.generate_quote(&expected).unwrap());

    let measurement = verify_binding(&identity.cert_der, &service).unwrap();
    assert_eq!(measurement.report_data, expected);
    assert!(measurement.signer == SGXMeasurement::new(S1));
    assert!(measurement.code_measurement == SGXMeasurement::new(CODE));
    assert_eq!(measurement.product_id, 1);
    assert_eq!(measurement.version, 4);
}

#[test]
fn quote_of_another_key_is_a_binding_mismatch() {
    let service = enclave(1);
    let builder = RaTlsCertificateBuilder::new();
    let identity_a = builder.build(&service).unwrap();
    let quote_a = decode_quote(&identity_a.cert_der).unwrap();
    assert!(service.verify_quote(&quote_a).is_ok());

    let key_b = IdentityKeyPair::generate().unwrap();
    let public_key_b = key_b.public_key_raw();
    assert_ne!(public_key_b, public_key_of(&identity_a.cert_der));
    let forged = builder.issue(key_b, quote_a.clone()).unwrap();
    assert_eq!(public_key_of(&forged.cert_der), public_key_b);
    assert_eq!(decode_quote(&forged.cert_der), Some(quote_a));

    assert_eq!(
        verify_binding(&forged.cert_der, &service).unwrap_err(),
        VerifyError::BindingMismatch
    );
    assert_eq!(
        verify_quote(&forged.cert_der, &policy(), &service).unwrap_err(),
        VerifyError::BindingMismatch
    );
}

#[test]
fn certificate_without_extension_is_rejected() {
    let cert_der = certificate_without_quote();
    assert_eq!(decode_quote(&cert_der), None);
    assert_eq!(
        verify_binding(&cert_der, &enclave(1)).unwrap_err(),
        VerifyError::NoQuoteExtension
    );
    assert_eq!(
        verify_quote(&cert_der, &policy(), &enclave(1)).unwrap_err(),
        VerifyError::NoQuoteExtension
    );
}

#[test]
fn bytes_that_are_no_certificate_are_rejected() {
    for bytes in [&b""[..], &b"not a certificate"[..], &[0x30, 0x03, 0x02, 0x01, 0x01][..]] {
        assert_eq!(decode_quote(bytes), None);
        assert_eq!(
            verify_quote(bytes, &policy(), &enclave(1)).unwrap_err(),
            VerifyError::NoQuoteExtension
        );
    }
    let mut truncated = RaTlsCertificateBuilder::new().build(&enclave(1)).unwrap().cert_der;
    truncated.truncate(truncated.len() / 2);
    assert_eq!(decode_quote(&truncated), None);
}

#[test]
fn end_to_end_policy_decides() {
    let config = policy();
    let builder = RaTlsCertificateBuilder::new().with_common_name("Client".to_string());

    let accepted = builder.build(&enclave(1)).unwrap();
    let measurement = verify_quote(&accepted.cert_der, &config, &enclave(1)).unwrap();
    assert!(measurement.signer == SGXMeasurement::new(S1));
    assert_eq!(measurement.product_id, 1);

    let second = builder.build(&enclave(2)).unwrap();
    assert!(verify_quote(&second.cert_der, &config, &enclave(2)).is_ok());

    let rejected = builder.build(&enclave(3)).unwrap();
    assert_eq!(
        verify_quote(&rejected.cert_der, &config, &enclave(3)).unwrap_err(),
        VerifyError::PolicyRejected
    );
    assert!(verify_binding(&rejected.cert_der, &enclave(3)).is_ok());

    let foreign = builder.build(&SoftwareAttestation { signer: S2, product_id: 1 }).unwrap();
    assert_eq!(
        verify_quote(&foreign.cert_der, &config, &enclave(1)).unwrap_err(),
        VerifyError::PolicyRejected
    );
}

#[test]
fn quote_that_the_service_rejects_is_rejected() {
    let identity = RaTlsCertificateBuilder::new().build(&enclave(1)).unwrap();
    assert_eq!(
        verify_binding(&identity.cert_der, &AbsentAttestation).unwrap_err(),
        VerifyError::AttestationRejected
    );
    let key = IdentityKeyPair::generate().unwrap();
    let malformed = RaTlsCertificateBuilder::new().issue(key, vec![1, 2, 3]).unwrap();
    assert_eq!(decode_quote(&malformed.cert_der), Some(vec![1, 2, 3]));
    assert_eq!(
        verify_quote(&malformed.cert_der, &policy(), &enclave(1)).unwrap_err(),
        VerifyError::AttestationRejected
    );
}

#[test]
fn binding_check_compares_report_data_with_key_digest() {
    let public_key = vec![4u8; 65];
    let mut measurement = enclave(1)
        .verify_quote(&enclave(1).generate_quote(&hash_sha512(public_key.clone())).unwrap())
        .unwrap();
    let bound = check_binding(public_key.clone(), Ok(measurement)).unwrap();
    assert_eq!(bound.report_data, measurement.report_data);

    measurement.report_data[63] ^= 1;
    assert_eq!(
        check_binding(public_key.clone(), Ok(measurement)).unwrap_err(),
        VerifyError::BindingMismatch
    );
    assert_eq!(
        check_binding(public_key, Err(AttestationError { reason: "revoked".to_string() }))
            .unwrap_err(),
        VerifyError::AttestationRejected
    );
}

#[test]
fn failing_service_fails_the_build() {
    let builder = RaTlsCertificateBuilder::new();
    match builder.build_internal(&AbsentAttestation) {
        Err(BuildError::AttestationFailure(reason)) => assert_eq!(reason, "Failed to open /dev/sgx"),
        other => panic!("unexpected result {:?}", other),
    }
    match builder.build(&AbsentAttestation) {
        Err(RaTlsError::CertificateBuildError(reason)) => {
            assert_eq!(reason, "Failed to open /dev/sgx")
        }
        other => panic!("unexpected result {:?}", other),
    }
}

#[test]
fn issued_certificate_is_self_signed_for_the_subject() {
    let builder = RaTlsCertificateBuilder::new().with_common_name("Server".to_string());
    let subject = builder.subject();
    assert_eq!(subject.common_name, "Server");
    assert_eq!(subject.country, "US");
    assert_eq!(subject.organization, "Aggregion");

    let identity = builder.build(&enclave(1)).unwrap();
    let (rest, certificate) = X509Certificate::from_der(&identity.cert_der).unwrap();
    assert!(rest.is_empty());
    assert_eq!(certificate.subject(), certificate.issuer());
    let common_name = certificate.subject().iter_common_name().next().unwrap();
    assert_eq!(common_name.as_str().unwrap(), "Server");
    let country = certificate.subject().iter_country().next().unwrap();
    assert_eq!(country.as_str().unwrap(), "US");
    let organization = certificate.subject().iter_organization().next().unwrap();
    assert_eq!(organization.as_str().unwrap(), "Aggregion");

    assert_eq!(certificate.extensions().len(), 1);
    let extension = &certificate.extensions()[0];
    assert_eq!(extension.oid.to_id_string(), "1.2.840.113741.1");
    assert!(!extension.critical);
    assert_eq!(Some(extension.value.to_vec()), decode_quote(&identity.cert_der));

    let key = rcgen::KeyPair::from_der(&identity.key_der).unwrap();
    assert_eq!(key.public_key_raw(), public_key_of(&identity.cert_der).as_slice());
}

#[test]
fn default_builder_uses_the_common_name_ratls() {
    assert_eq!(RaTlsCertificateBuilder::new().subject().common_name, "RATLS");
    assert_eq!(RaTlsCertificateBuilder::default().subject().common_name, "RATLS");
    let identity = RaTlsCertificateBuilder::new().build(&enclave(1)).unwrap();
    let (_, certificate) = X509Certificate::from_der(&identity.cert_der).unwrap();
    let common_name = certificate.subject().iter_common_name().next().unwrap();
    assert_eq!(common_name.as_str().unwrap(), "RATLS");
}

#[test]
fn each_build_uses_a_fresh_key() {
    let builder = RaTlsCertificateBuilder::new();
    let first = builder.build(&enclave(1)).unwrap();
    let second = builder.build(&enclave(1)).unwrap();
    assert_ne!(first.key_der, second.key_der);
    assert_ne!(public_key_of(&first.cert_der), public_key_of(&second.cert_der));
}

#[test]
fn key_pair_report_data_is_the_digest_of_its_public_key() {
    let key = IdentityKeyPair::generate().unwrap();
    assert_eq!(key.report_data(), hash_sha512(key.public_key_raw()));
    assert_eq!(key.public_key_raw().len(), 65);
}

#[test]
fn quote_extension_carries_the_bytes_unchanged() {
    let extension = encode_quote(vec![9, 8, 7]);
    assert_eq!(extension.oid, REPORT_OID.to_vec());
    assert_eq!(extension.oid, vec![1, 2, 840, 113741, 1]);
    assert!(!extension.critical);
    assert_eq!(extension.content, vec![9, 8, 7]);
    assert_eq!(encode_quote(Vec::new()).content, Vec::<u8>::new());
}

fn certificate_with_extensions(extensions: Vec<rcgen::CustomExtension>) -> Vec<u8> {
    let mut params = rcgen::CertificateParams::default();
    params.custom_extensions = extensions;
    rcgen::Certificate::from_params(params).unwrap().serialize_der().unwrap()
}

#[test]
fn certificate_with_the_extension_twice_carries_no_quote() {
    let cert_der = certificate_with_extensions(vec![
        rcgen::CustomExtension::from_oid_content(&REPORT_OID, vec![1]),
        rcgen::CustomExtension::from_oid_content(&REPORT_OID, vec![2]),
    ]);
    assert!(X509Certificate::from_der(&cert_der).is_ok());
    assert_eq!(decode_quote(&cert_der), None);
    assert_eq!(
        verify_quote(&cert_der, &policy(), &enclave(1)).unwrap_err(),
        VerifyError::NoQuoteExtension
    );
}

#[test]
fn extension_under_another_identifier_is_no_quote() {
    let cert_der = certificate_with_extensions(vec![rcgen::CustomExtension::from_oid_content(
        &[1, 2, 840, 113741, 2],
        vec![1, 2, 3],
    )]);
    assert_eq!(decode_quote(&cert_der), None);
    assert_eq!(
        verify_binding(&cert_der, &enclave(1)).unwrap_err(),
        VerifyError::NoQuoteExtension
    );
}

#[test]
fn quote_beside_other_extensions_is_found() {
    let cert_der = certificate_with_extensions(vec![
        rcgen::CustomExtension::from_oid_content(&[1, 2, 840, 113741, 2], vec![1]),
        rcgen::CustomExtension::from_oid_content(&REPORT_OID, vec![7, 7]),
    ]);
    assert_eq!(decode_quote(&cert_der), Some(vec![7, 7]));
}

#[test]
fn quotes_of_any_length_are_carried() {
    let builder = RaTlsCertificateBuilder::new();
    for quote in [Vec::new(), vec![0u8], vec![0xab; 4600]] {
        let key = IdentityKeyPair::generate().unwrap();
        let public_key = key.public_key_raw();
        let identity = builder.issue(key, quote.clone()).unwrap();
        assert_eq!(decode_quote(&identity.cert_der), Some(quote));
        assert_eq!(public_key_of(&identity.cert_der), public_key);
    }
}

fn subject(common_name: &str) -> CertificateSubject {
    CertificateSubject {
        common_name: common_name.to_string(),
        country: "US".to_string(),
        organization: "Aggregion".to_string(),
    }
}

fn serialization_failure(result: Result<occlum_ratls::cert::RaTlsCertifiedKey, BuildError>) -> String {
    match result {
        Err(BuildError::Serialization(reason)) => reason,
        other => panic!("unexpected result {:?}", other),
    }
}

#[test]
fn certificate_that_holds_the_identity_is_accepted() {
    let service = enclave(1);
    let identity = RaTlsCertificateBuilder::new().build(&service).unwrap();
    let public_key = public_key_of(&identity.cert_der);
    let quote = decode_quote(&identity.cert_der).unwrap();
    let accepted = accept_issued(
        identity.cert_der.clone(),
        &subject("RATLS"),
        &public_key,
        &quote,
        vec![1, 2, 3],
    )
    .unwrap();
    assert_eq!(accepted.cert_der, identity.cert_der);
    assert_eq!(accepted.key_der, vec![1, 2, 3]);
}

#[test]
fn certificate_that_does_not_hold_the_identity_is_refused() {
    let service = enclave(1);
    let identity = RaTlsCertificateBuilder::new().build(&service).unwrap();
    let public_key = public_key_of(&identity.cert_der);
    let quote = decode_quote(&identity.cert_der).unwrap();
    let refused = "Issued certificate does not hold the identity";

    let mut other_quote = quote.clone();
    other_quote[0] ^= 1;
    let mut other_key = public_key.clone();
    other_key[1] ^= 1;
    let mut other_country = subject("RATLS");
    other_country.country = "DE".to_string();
    let mut other_organization = subject("RATLS");
    other_organization.organization = "Aggregion Ltd".to_string();

    let der = || identity.cert_der.clone();
    for result in [
        accept_issued(der(), &subject("RATLS"), &public_key, &other_quote, Vec::new()),
        accept_issued(der(), &subject("RATLS"), &public_key, &quote[1..], Vec::new()),
        accept_issued(der(), &subject("RATLS"), &other_key, &quote, Vec::new()),
        accept_issued(der(), &subject("Server"), &public_key, &quote, Vec::new()),
        accept_issued(der(), &other_country, &public_key, &quote, Vec::new()),
        accept_issued(der(), &other_organization, &public_key, &quote, Vec::new()),
        accept_issued(vec![0x30, 0x00], &subject("RATLS"), &public_key, &quote, Vec::new()),
        accept_issued(certificate_without_quote(), &subject("RATLS"), &public_key, &quote, Vec::new()),
    ] {
        assert_eq!(serialization_failure(result), refused);
    }
}

#[test]
fn certificate_issued_by_another_name_is_refused() {
    let mut ca_params = rcgen::CertificateParams::default();
    ca_params.is_ca = rcgen::IsCa::Ca(rcgen::BasicConstraints::Unconstrained);
    ca_params.distinguished_name = rcgen::DistinguishedName::new();
    ca_params.distinguished_name.push(rcgen::DnType::CommonName, "Authority");
    let ca = rcgen::Certificate::from_params(ca_params).unwrap();

    let mut params = rcgen::CertificateParams::default();
    params.distinguished_name = rcgen::DistinguishedName::new();
    params.distinguished_name.push(rcgen::DnType::CommonName, "RATLS");
    params.distinguished_name.push(rcgen::DnType::CountryName, "US");
    params.distinguished_name.push(rcgen::DnType::OrganizationName, "Aggregion");
    params.custom_extensions = vec![rcgen::CustomExtension::from_oid_content(&REPORT_OID, vec![5])];
    let leaf = rcgen::Certificate::from_params(params).unwrap();
    let public_key = leaf.get_key_pair().public_key_raw().to_vec();

    let issued_by_ca = leaf.serialize_der_with_signer(&ca).unwrap();
    assert_eq!(decode_quote(&issued_by_ca), Some(vec![5]));
    let refused = accept_issued(issued_by_ca, &subject("RATLS"), &public_key, &[5], Vec::new());
    assert_eq!(serialization_failure(refused), "Issued certificate does not hold the identity");

    let self_issued = leaf.serialize_der().unwrap();
    assert!(accept_issued(self_issued, &subject("RATLS"), &public_key, &[5], Vec::new()).is_ok());
}

#[test]
fn certificate_signed_with_another_key_is_refused() {
    let names = |params: &mut rcgen::CertificateParams| {
        params.distinguished_name = rcgen::DistinguishedName::new();
        params.distinguished_name.push(rcgen::DnType::CommonName, "RATLS");
        params.distinguished_name.push(rcgen::DnType::CountryName, "US");
        params.distinguished_name.push(rcgen::DnType::OrganizationName, "Aggregion");
    };
    let mut signer_params = rcgen::CertificateParams::default();
    names(&mut signer_params);
    let signer = rcgen::Certificate::from_params(signer_params).unwrap();

    let mut params = rcgen::CertificateParams::default();
    names(&mut params);
    params.custom_extensions = vec![rcgen::CustomExtension::from_oid_content(&REPORT_OID, vec![5])];
    let leaf = rcgen::Certificate::from_params(params).unwrap();
    let public_key = leaf.get_key_pair().public_key_raw().to_vec();

    let foreign = leaf.serialize_der_with_signer(&signer).unwrap();
    let (_, parsed) = X509Certificate::from_der(&foreign).unwrap();
    assert_eq!(parsed.subject(), parsed.issuer());
    let refused = accept_issued(foreign, &subject("RATLS"), &public_key, &[5], Vec::new());
    assert_eq!(serialization_failure(refused), "Issued certificate does not hold the identity");

    let mut tampered = leaf.serialize_der().unwrap();
    let last = tampered.len() - 1;
    tampered[last] ^= 1;
    let refused = accept_issued(tampered, &subject("RATLS"), &public_key, &[5], Vec::new());
    assert_eq!(serialization_failure(refused), "Issued certificate does not hold the identity");
}
