use rcgen::{CertificateParams, DistinguishedName, DnType, KeyPair};
use se_tls::ca::CertificateAuthority;
use se_tls::errors::IssueError;
use x509_parser::certificate::X509Certificate;
use x509_parser::public_key::PublicKey;
use x509_parser::prelude::FromDer;

fn make_csr_pem(common_name: &str) -> String {
    let key_pair = KeyPair::generate().unwrap();
    let mut csr_params = CertificateParams::new(vec![]).unwrap();
    csr_params.distinguished_name = {
        let mut dn = DistinguishedName::new();
        dn.push(DnType::CommonName, common_name);
        dn
    };
    let csr = csr_params.serialize_request(&key_pair).unwrap();
    csr.pem().unwrap()
}

#[test]
fn test_csr_signing_workflow() {
    // Create a CSR as a client
    let leaf_key_pair = KeyPair::generate().unwrap();
    let mut csr_params = CertificateParams::new(vec![]).unwrap();
    csr_params.distinguished_name = {
        let mut dn = DistinguishedName::new();
        dn.push(DnType::CommonName, "SETLS");
        dn
    };
    let csr = csr_params.serialize_request(&leaf_key_pair).unwrap();
    let csr_pem = csr.pem().unwrap();

    // Get a CA to sign it
    let ca = CertificateAuthority::new().unwrap();
    let chain_pem_bytes = ca.sign_csr(csr_pem.as_bytes()).unwrap();
    let chain_pem = String::from_utf8(chain_pem_bytes).unwrap();

    // Client gets result and verifies signature
    let pem_blocks = pem::parse_many(&chain_pem).expect("Failed to parse returned PEM chain");
    assert_eq!(pem_blocks.len(), 2, "Should return exactly 2 certificates");

    let leaf_cert_der = &pem_blocks[0].contents();
    let ca_cert_der = &pem_blocks[1].contents();

    let (_, leaf_cert) =
        X509Certificate::from_der(leaf_cert_der).expect("Failed to parse leaf certificate");
    let (_, ca_cert) =
        X509Certificate::from_der(ca_cert_der).expect("Failed to parse CA certificate");

    assert!(
        leaf_cert
            .verify_signature(Some(&ca_cert.public_key()))
            .is_ok(),
        "Leaf certificate should be verified by CA certificate"
    );
    assert!(
        leaf_cert.subject().to_string().contains("CN=SETLS"),
        "Leaf certificate should have CN=SETLS"
    );
    assert!(
        ca_cert.subject().to_string().contains("CN=SETLS-CA"),
        "CA certificate should have CN=SETLS-CA"
    );
    assert!(
        ca_cert
            .verify_signature(Some(&ca_cert.public_key()))
            .is_ok(),
        "CA certificate should be self-signed"
    );
}

#[test]
fn issued_leaf_carries_csr_public_key() {
    let csr_pem = make_csr_pem("SETLS");
    let csr_block = pem::parse(&csr_pem).unwrap();
    let (_, csr) = x509_parser::certification_request::X509CertificationRequest::from_der(
        csr_block.contents(),
    )
    .unwrap();
    let csr_key_bits = csr
        .certification_request_info
        .subject_pki
        .subject_public_key
        .data
        .to_vec();

    let ca = CertificateAuthority::new().unwrap();
    let chain = ca.sign_csr(csr_pem.as_bytes()).unwrap();
    let blocks = pem::parse_many(&chain).unwrap();
    let (_, leaf) = X509Certificate::from_der(blocks[0].contents()).unwrap();
    let leaf_key_bits = leaf.public_key().subject_public_key.data.to_vec();
    assert_eq!(leaf_key_bits, csr_key_bits);
}

#[test]
fn unauthorized_subject_is_rejected() {
    let ca = CertificateAuthority::new().unwrap();
    let csr_pem = make_csr_pem("Other");
    let err = ca.sign_csr(csr_pem.as_bytes()).unwrap_err();
    assert_eq!(err, IssueError::UnauthorizedSubject);
}

#[test]
fn corrupted_self_signature_is_rejected() {
    let ca = CertificateAuthority::new().unwrap();
    let csr_pem = make_csr_pem("SETLS");
    let block = pem::parse(&csr_pem).unwrap();
    let mut der = block.contents().to_vec();
    // Flip a bit in the final signature byte; the DER structure still parses.
    let last = der.len() - 1;
    der[last] ^= 0x01;
    let corrupted = pem::encode(&pem::Pem::new("CERTIFICATE REQUEST", der));
    let err = ca.sign_csr(corrupted.as_bytes()).unwrap_err();
    assert_eq!(err, IssueError::InvalidProofOfPossession);
}

#[test]
fn non_request_label_is_rejected() {
    let ca = CertificateAuthority::new().unwrap();
    // A plain certificate is not a certificate request.
    let ca_cert_pem = ca.ca_certificate_pem().clone();
    let err = ca.sign_csr(&ca_cert_pem).unwrap_err();
    assert_eq!(err, IssueError::MalformedRequest);
}

#[test]
fn unparseable_request_is_rejected() {
    let ca = CertificateAuthority::new().unwrap();
    let err = ca.sign_csr(b"not a pem block at all").unwrap_err();
    assert_eq!(err, IssueError::MalformedRequest);
}

#[test]
fn issuing_twice_gives_same_subject_and_key() {
    let ca = CertificateAuthority::new().unwrap();
    let csr_pem = make_csr_pem("SETLS");
    let chain1 = ca.sign_csr(csr_pem.as_bytes()).unwrap();
    let chain2 = ca.sign_csr(csr_pem.as_bytes()).unwrap();

    let blocks1 = pem::parse_many(&chain1).unwrap();
    let blocks2 = pem::parse_many(&chain2).unwrap();
    let (_, leaf1) = X509Certificate::from_der(blocks1[0].contents()).unwrap();
    let (_, leaf2) = X509Certificate::from_der(blocks2[0].contents()).unwrap();

    assert_eq!(
        leaf1.subject().to_string(),
        leaf2.subject().to_string(),
        "same subject on both issued leaves"
    );
    assert_eq!(
        leaf1.public_key().subject_public_key.data,
        leaf2.public_key().subject_public_key.data,
        "same public key on both issued leaves"
    );
    // The CA block is identical in both chains.
    assert_eq!(blocks1[1].contents(), blocks2[1].contents());
}

#[test]
fn issued_leaf_is_valid_for_180_days() {
    let ca = CertificateAuthority::new().unwrap();
    let csr_pem = make_csr_pem("SETLS");
    let chain = ca.sign_csr(csr_pem.as_bytes()).unwrap();
    let blocks = pem::parse_many(&chain).unwrap();
    let (_, leaf) = X509Certificate::from_der(blocks[0].contents()).unwrap();
    let validity = leaf.validity();
    assert_eq!(
        validity.not_after.timestamp() - validity.not_before.timestamp(),
        180 * 86400
    );
}

#[test]
fn ca_certificate_is_marked_as_an_authority_over_p256() {
    let ca = CertificateAuthority::new().unwrap();
    let ca_block = pem::parse(ca.ca_certificate_pem()).unwrap();
    let (_, ca_cert) = X509Certificate::from_der(ca_block.contents()).unwrap();
    let constraints = ca_cert.basic_constraints().unwrap().unwrap();
    assert!(constraints.value.ca, "CA certificate must carry CA=true");
    assert!(
        constraints.value.path_len_constraint.is_none(),
        "path length must be unconstrained"
    );
    match ca_cert.public_key().parsed().unwrap() {
        // An uncompressed P-256 point: one tag byte and two 32-byte coordinates.
        PublicKey::EC(point) => assert_eq!(point.data().len(), 65),
        other => panic!("expected an EC public key, got {other:?}"),
    }
}
