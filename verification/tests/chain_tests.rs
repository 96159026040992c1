use se_tls::ca::CertificateAuthority;
use se_tls::chain::{parse_cert_chain, serialize_chain};
use se_tls::errors::ChainError;

fn sample_block(label: &str, payload_line: &str) -> Vec<u8> {
    let mut text = String::new();
    text.push_str("-----BEGIN ");
    text.push_str(label);
    text.push_str("-----\n");
    text.push_str(payload_line);
    text.push('\n');
    text.push_str("-----END ");
    text.push_str(label);
    text.push_str("-----\n");
    text.into_bytes()
}

#[test]
fn parse_is_left_inverse_of_serialize() {
    let leaf = sample_block("CERTIFICATE", "bGVhZmNlcnQ=");
    let ca = sample_block("CERTIFICATE", "Y2FjZXJ0");
    let chain = serialize_chain(&leaf, &ca);
    let (parsed_leaf, parsed_ca) = parse_cert_chain(&chain).unwrap();
    assert_eq!(parsed_leaf, leaf);
    assert_eq!(parsed_ca, ca);
}

#[test]
fn serialize_places_one_blank_line_between_blocks() {
    let leaf = sample_block("CERTIFICATE", "AA==");
    let ca = sample_block("CERTIFICATE", "AB==");
    let chain = serialize_chain(&leaf, &ca);
    let mut expected = leaf.clone();
    expected.push(b'\n');
    expected.extend_from_slice(&ca);
    assert_eq!(chain, expected);
}

#[test]
fn single_block_is_too_short() {
    let leaf = sample_block("CERTIFICATE", "AA==");
    let err = parse_cert_chain(&leaf).unwrap_err();
    assert_eq!(err, ChainError::ChainTooShort);
    assert_eq!(err.reason(), "chain too short: expected two PEM blocks");
}

#[test]
fn empty_input_is_too_short() {
    assert_eq!(parse_cert_chain(b"").unwrap_err(), ChainError::ChainTooShort);
}

#[test]
fn unterminated_second_block_is_too_short() {
    let leaf = sample_block("CERTIFICATE", "AA==");
    let mut chain = leaf.clone();
    chain.push(b'\n');
    chain.extend_from_slice(b"-----BEGIN CERTIFICATE-----\nAA==\n");
    assert_eq!(parse_cert_chain(&chain).unwrap_err(), ChainError::ChainTooShort);
}

#[test]
fn extra_blocks_after_the_first_two_are_ignored() {
    let leaf = sample_block("CERTIFICATE", "AA==");
    let ca = sample_block("CERTIFICATE", "AB==");
    let third = sample_block("CERTIFICATE", "AC==");
    let mut chain = serialize_chain(&leaf, &ca);
    chain.push(b'\n');
    chain.extend_from_slice(&third);
    let (parsed_leaf, parsed_ca) = parse_cert_chain(&chain).unwrap();
    assert_eq!(parsed_leaf, leaf);
    assert_eq!(parsed_ca, ca);
}

#[test]
fn leading_text_before_first_block_is_skipped() {
    let leaf = sample_block("CERTIFICATE", "AA==");
    let ca = sample_block("CERTIFICATE", "AB==");
    let mut chain = b"some preamble\n".to_vec();
    chain.extend_from_slice(&serialize_chain(&leaf, &ca));
    let (parsed_leaf, parsed_ca) = parse_cert_chain(&chain).unwrap();
    assert_eq!(parsed_leaf, leaf);
    assert_eq!(parsed_ca, ca);
}

#[test]
fn issued_chain_round_trips_through_parse() {
    let key_pair = rcgen::KeyPair::generate().unwrap();
    let mut csr_params = rcgen::CertificateParams::new(vec![]).unwrap();
    csr_params.distinguished_name = {
        let mut dn = rcgen::DistinguishedName::new();
        dn.push(rcgen::DnType::CommonName, "SETLS");
        dn
    };
    let csr_pem = csr_params
        .serialize_request(&key_pair)
        .unwrap()
        .pem()
        .unwrap();
    let ca = CertificateAuthority::new().unwrap();
    let chain = ca.sign_csr(csr_pem.as_bytes()).unwrap();
    let (leaf, ca_block) = parse_cert_chain(&chain).unwrap();
    assert_eq!(&ca_block, ca.ca_certificate_pem());
    assert_eq!(serialize_chain(&leaf, &ca_block), chain);
}
