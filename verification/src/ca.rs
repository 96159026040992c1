//! The certificate authority: a generated P-256 keypair and self-signed CA
//! certificate, fixed at construction, and the validation-and-issuance logic
//! for certificate signing requests. A request is accepted only when it is a
//! parseable PEM block labelled as a certificate request, its subject names
//! the one identity class the fleet uses, and its self-signature proves
//! possession of the matching private key; the issued chain is the new leaf
//! block followed by the CA certificate block.

use vstd::prelude::*;
use vstd::string::StringSliceAdditionalSpecFns;
use x509_parser::prelude::FromDer;

use crate::chain::{
    contains_bytes, contains_seq, is_pem_block, lemma_parse_serialize_chain, serialize_chain,
    spec_parse_chain, NL,
};
use crate::errors::IssueError;

verus! {

broadcast use vstd::string::is_ascii_spec_bytes;

#[verifier::external_type_specification]
#[verifier::external_body]
pub struct ExKeyPair(rcgen::KeyPair);

#[verifier::external_type_specification]
#[verifier::external_body]
#[verifier::reject_recursive_types(S)]
pub struct ExIssuer<'a, S>(rcgen::Issuer<'a, S>);

/// How many days an issued leaf certificate is valid for.
pub const LEAF_VALIDITY_DAYS: u64 = 180;

/// The bytes of `"SETLS"`, the fixed device common name.
pub open spec fn spec_device_cn() -> Seq<u8> {
    seq![83u8, 69u8, 84u8, 76u8, 83u8]
}

/// The bytes of `"SETLS-CA"`, the fixed CA common name.
pub open spec fn spec_ca_cn() -> Seq<u8> {
    spec_device_cn() + seq![45u8, 67u8, 65u8]
}

/// The canonical distinguished-name string for a lone common name: `"CN="`
/// followed by the name.
pub open spec fn dn_for_cn(cn: Seq<u8>) -> Seq<u8> {
    seq![67u8, 78u8, 61u8] + cn
}

/// The bytes of `"CN=SETLS"`, the token every acceptable subject must contain.
pub open spec fn spec_required_dn_token() -> Seq<u8> {
    dn_for_cn(spec_device_cn())
}

/// The bytes of `"CERTIFICATE REQUEST"`, the token a CSR's PEM label must
/// contain.
pub open spec fn spec_request_label_token() -> Seq<u8> {
    seq![
        67u8, 69u8, 82u8, 84u8, 73u8, 70u8, 73u8, 67u8, 65u8, 84u8, 69u8, 32u8, 82u8, 69u8, 81u8,
        85u8, 69u8, 83u8, 84u8,
    ]
}

/// The exec bytes of the fixed device common name.
pub fn device_cn_bytes() -> (r: &'static [u8])
    ensures
        r@ == spec_device_cn(),
{
    let s = "SETLS";
    proof {
        reveal_strlit("SETLS");
        assert(s.is_ascii());
        assert(s.spec_bytes() =~= spec_device_cn());
    }
    s.as_bytes()
}

/// The exec bytes of the fixed CA common name.
pub fn ca_cn_bytes() -> (r: &'static [u8])
    ensures
        r@ == spec_ca_cn(),
{
    let s = "SETLS-CA";
    proof {
        reveal_strlit("SETLS-CA");
        assert(s.is_ascii());
        assert(s.spec_bytes() =~= spec_ca_cn());
    }
    s.as_bytes()
}

/// The exec bytes of the required subject token.
pub fn required_dn_token_bytes() -> (r: &'static [u8])
    ensures
        r@ == spec_required_dn_token(),
{
    let s = "CN=SETLS";
    proof {
        reveal_strlit("CN=SETLS");
        assert(s.is_ascii());
        assert(s.spec_bytes() =~= spec_required_dn_token());
    }
    s.as_bytes()
}

/// The exec bytes of the certificate-request label token.
pub fn request_label_token_bytes() -> (r: &'static [u8])
    ensures
        r@ == spec_request_label_token(),
{
    let s = "CERTIFICATE REQUEST";
    proof {
        reveal_strlit("CERTIFICATE REQUEST");
        assert(s.is_ascii());
        assert(s.spec_bytes() =~= spec_request_label_token());
    }
    s.as_bytes()
}

/// The label and decoded payload that `pem::parse` reads out of a text, or
/// `None` where the text is not one well-formed PEM block.
pub uninterp spec fn pem_block_of(s: Seq<u8>) -> Option<(Seq<u8>, Seq<u8>)>;

/// Whether `x509_parser`'s CSR parser accepts these DER bytes.
pub uninterp spec fn csr_decodes(der: Seq<u8>) -> bool;

/// The canonical string form of a decodable CSR's subject distinguished name.
pub uninterp spec fn csr_subject_of(der: Seq<u8>) -> Seq<u8>;

/// Whether a decodable CSR's self-signature verifies against its embedded
/// public key.
pub uninterp spec fn csr_signature_valid(der: Seq<u8>) -> bool;

/// The subject public key bits embedded in a decodable CSR.
pub uninterp spec fn csr_public_key_of(der: Seq<u8>) -> Seq<u8>;

/// The subject public key bits of the certificate held in a PEM block.
pub uninterp spec fn cert_public_key_of(cert_pem: Seq<u8>) -> Seq<u8>;

/// The canonical subject string of the certificate held in a PEM block.
pub uninterp spec fn cert_subject_of(cert_pem: Seq<u8>) -> Seq<u8>;

/// Whether the certificate in the first PEM block carries a signature that
/// verifies under the public key of the certificate in the second.
pub uninterp spec fn verifies_under(cert_pem: Seq<u8>, issuer_cert_pem: Seq<u8>) -> bool;

/// Whether the certificate held in a PEM block is marked as a certificate
/// authority: basic constraints CA=true with no path-length limit.
pub uninterp spec fn cert_is_ca_of(cert_pem: Seq<u8>) -> bool;

/// Whether the subject public key of the certificate held in a PEM block is
/// an ECDSA P-256 key.
pub uninterp spec fn cert_key_is_p256_of(cert_pem: Seq<u8>) -> bool;

/// The not-before instant of the certificate held in a PEM block, in whole
/// seconds, as the certificate's validity field encodes it.
pub uninterp spec fn cert_not_before_of(cert_pem: Seq<u8>) -> int;

/// The not-after instant of the certificate held in a PEM block, in whole
/// seconds, as the certificate's validity field encodes it.
pub uninterp spec fn cert_not_after_of(cert_pem: Seq<u8>) -> int;

/// Relies on `pem::parse`: it reads the first PEM block of the text,
/// tolerating what surrounds it, returning the block's label and its
/// base64-decoded payload, and fails where no block can be read; all of
/// this is a function of the input text alone.
#[verifier::external_body]
fn parse_pem_block(input: &[u8]) -> (r: Option<(Vec<u8>, Vec<u8>)>)
    ensures
        r is Some <==> pem_block_of(input@) is Some,
        r matches Some(p) ==> pem_block_of(input@) == Some((p.0@, p.1@)),
{
    match pem::parse(input) {
        Ok(p) => Some((p.tag().as_bytes().to_vec(), p.contents().to_vec())),
        Err(_) => None,
    }
}

/// Relies on `x509_parser::certification_request::X509CertificationRequest::from_der`
/// and on the `Display` form of `X509Name`: whether the DER decodes, and the
/// canonical subject string when it does, are functions of the bytes alone.
#[verifier::external_body]
fn csr_subject_bytes(der: &[u8]) -> (r: Option<Vec<u8>>)
    ensures
        r is Some <==> csr_decodes(der@),
        r matches Some(s) ==> s@ == csr_subject_of(der@),
{
    match x509_parser::certification_request::X509CertificationRequest::from_der(der) {
        Ok((_, csr)) => Some(
            csr.certification_request_info.subject.to_string().into_bytes(),
        ),
        Err(_) => None,
    }
}

/// Relies on `X509CertificationRequest::verify_signature`: whether the CSR's
/// self-signature verifies against its embedded public key is a function of
/// the DER bytes alone.
#[verifier::external_body]
fn csr_self_signature_ok(der: &[u8]) -> (r: bool)
    requires
        csr_decodes(der@),
    ensures
        r == csr_signature_valid(der@),
{
    match x509_parser::certification_request::X509CertificationRequest::from_der(der) {
        Ok((_, csr)) => csr.verify_signature().is_ok(),
        Err(_) => false,
    }
}

/// The CA keypair, issuing handle and self-signed CA certificate. The
/// authority is immutable after construction and safe to share read-only
/// across any number of concurrent issuance calls.
pub struct CertificateAuthority {
    issuer: rcgen::Issuer<'static, rcgen::KeyPair>,
    ca_cert_pem: Vec<u8>,
}

impl CertificateAuthority {
    /// The PEM text of the self-signed CA certificate.
    pub closed spec fn spec_ca_pem(self) -> Seq<u8> {
        self.ca_cert_pem@
    }

    /// The CA certificate is one well-formed PEM block, self-signed, with
    /// the fixed CA common name as its whole subject, marked as a
    /// certificate authority, over a P-256 key.
    pub open spec fn wf(self) -> bool {
        &&& is_pem_block(self.spec_ca_pem())
        &&& verifies_under(self.spec_ca_pem(), self.spec_ca_pem())
        &&& cert_subject_of(self.spec_ca_pem()) == dn_for_cn(spec_ca_cn())
        &&& cert_is_ca_of(self.spec_ca_pem())
        &&& cert_key_is_p256_of(self.spec_ca_pem())
    }

    /// Construct an authority with a freshly generated P-256 keypair and a
    /// self-signed CA certificate. Returns `None` only when the system's key
    /// generation fails.
    pub fn new() -> (r: Option<CertificateAuthority>)
        ensures
            r matches Some(ca) ==> ca.wf(),
    {
        match generate_ca_material(ca_cn_bytes()) {
            Some((issuer, ca_cert_pem)) => Some(CertificateAuthority { issuer, ca_cert_pem }),
            None => None,
        }
    }

    /// The PEM text of the CA certificate, for building trust stores.
    pub fn ca_certificate_pem(&self) -> (r: &Vec<u8>)
        ensures
            r@ == self.spec_ca_pem(),
    {
        &self.ca_cert_pem
    }

    /// Validate a PEM-encoded CSR and issue a two-block certificate chain,
    /// leaf first, CA certificate second. Each validation step names its own
    /// failure: an unparseable block or label without the request token is a
    /// `MalformedRequest`, a subject without the required identity token an
    /// `UnauthorizedSubject`, and a failed self-signature check an
    /// `InvalidProofOfPossession`.
    pub fn sign_csr(&self, csr_pem: &[u8]) -> (r: Result<Vec<u8>, IssueError>)
        requires
            self.wf(),
        ensures
            match r {
                Ok(chain) => spec_issue_outcome(
                    self.spec_ca_pem(),
                    csr_pem@,
                    Ok(chain@),
                ),
                Err(e) => spec_issue_outcome(self.spec_ca_pem(), csr_pem@, Err(e)),
            },
    {
        let (tag, body) = match parse_pem_block(csr_pem) {
            Some(p) => p,
            None => {
                return Err(IssueError::MalformedRequest);
            },
        };
        if !contains_bytes(tag.as_slice(), request_label_token_bytes()) {
            return Err(IssueError::MalformedRequest);
        }
        let subject = match csr_subject_bytes(body.as_slice()) {
            Some(s) => s,
            None => {
                return Err(IssueError::MalformedRequest);
            },
        };
        if !contains_bytes(subject.as_slice(), required_dn_token_bytes()) {
            return Err(IssueError::UnauthorizedSubject);
        }
        if !csr_self_signature_ok(body.as_slice()) {
            return Err(IssueError::InvalidProofOfPossession);
        }
        let leaf = match issue_leaf_certificate(
            body.as_slice(),
            device_cn_bytes(),
            LEAF_VALIDITY_DAYS,
            self,
        ) {
            Some(l) => l,
            None => {
                return Err(IssueError::MalformedRequest);
            },
        };
        let chain = serialize_chain(leaf.as_slice(), self.ca_cert_pem.as_slice());
        proof {
            lemma_parse_serialize_chain(leaf@, self.ca_cert_pem@);
        }
        Ok(chain)
    }
}

/// What `sign_csr` promises for every request: each rejection comes exactly
/// on the inputs its check names, in validation order, and a returned chain
/// parses back into a fresh leaf block carrying the request's public key and
/// the fixed device subject, followed by the CA certificate block.
pub open spec fn spec_issue_outcome(
    ca_pem: Seq<u8>,
    req: Seq<u8>,
    r: Result<Seq<u8>, IssueError>,
) -> bool {
    match pem_block_of(req) {
        None => r == Err::<Seq<u8>, IssueError>(IssueError::MalformedRequest),
        Some(block) => if !contains_seq(block.0, spec_request_label_token()) {
            r == Err::<Seq<u8>, IssueError>(IssueError::MalformedRequest)
        } else if !csr_decodes(block.1) {
            r == Err::<Seq<u8>, IssueError>(IssueError::MalformedRequest)
        } else if !contains_seq(csr_subject_of(block.1), spec_required_dn_token()) {
            r == Err::<Seq<u8>, IssueError>(IssueError::UnauthorizedSubject)
        } else if !csr_signature_valid(block.1) {
            r == Err::<Seq<u8>, IssueError>(IssueError::InvalidProofOfPossession)
        } else {
            match r {
                Ok(chain) => issued_chain_ok(ca_pem, block.1, chain),
                Err(e) => e == IssueError::MalformedRequest,
            }
        },
    }
}

/// A successfully issued chain: exactly a well-formed leaf certificate
/// block, one blank line, then the CA certificate block, and nothing else.
/// The leaf holds the CSR's public key and the fixed device subject, is
/// signed by the CA, and is valid for exactly the fixed number of days.
pub open spec fn issued_chain_ok(ca_pem: Seq<u8>, csr_body: Seq<u8>, chain: Seq<u8>) -> bool {
    &&& spec_parse_chain(chain) is Some
    &&& spec_parse_chain(chain).unwrap().1 == ca_pem
    &&& chain == spec_parse_chain(chain).unwrap().0 + seq![NL] + ca_pem
    &&& is_pem_block(spec_parse_chain(chain).unwrap().0)
    &&& cert_public_key_of(spec_parse_chain(chain).unwrap().0) == csr_public_key_of(csr_body)
    &&& cert_subject_of(spec_parse_chain(chain).unwrap().0) == spec_required_dn_token()
    &&& verifies_under(spec_parse_chain(chain).unwrap().0, ca_pem)
    &&& cert_not_after_of(spec_parse_chain(chain).unwrap().0) == cert_not_before_of(
        spec_parse_chain(chain).unwrap().0,
    ) + LEAF_VALIDITY_DAYS * 86400
}

/// Relies on `rcgen::KeyPair::generate`, `rcgen::CertificateParams::self_signed`,
/// `rcgen::Certificate::pem` and `rcgen::Issuer::new`: the PEM text is one
/// block armoured with line feeds; the certificate is self-signed with a
/// single-common-name subject, marked CA=true with no path-length limit,
/// over the freshly generated ECDSA P-256 keypair; the returned issuer
/// signs with the same keypair the certificate carries.
#[verifier::external_body]
fn generate_ca_material(ca_cn: &[u8]) -> (r: Option<
    (rcgen::Issuer<'static, rcgen::KeyPair>, Vec<u8>),
>)
    ensures
        r matches Some(m) ==> {
            &&& is_pem_block(m.1@)
            &&& verifies_under(m.1@, m.1@)
            &&& cert_subject_of(m.1@) == dn_for_cn(ca_cn@)
            &&& cert_is_ca_of(m.1@)
            &&& cert_key_is_p256_of(m.1@)
        },
{
    let cn = std::str::from_utf8(ca_cn).ok()?;
    let key_pair = rcgen::KeyPair::generate().ok()?;
    let mut params = rcgen::CertificateParams::new(vec![cn.to_string()]).ok()?;
    let mut dn = rcgen::DistinguishedName::new();
    dn.push(rcgen::DnType::CommonName, cn);
    params.distinguished_name = dn;
    params.is_ca = rcgen::IsCa::Ca(rcgen::BasicConstraints::Unconstrained);
    let cert = params.self_signed(&key_pair).ok()?;
    let pem_bytes = cert.pem().into_bytes();
    Some((rcgen::Issuer::new(params, key_pair), pem_bytes))
}

/// Relies on `rcgen::CertificateSigningRequestParams::from_der` and
/// `rcgen::CertificateParams::signed_by`: the issued certificate carries the
/// CSR's public key bits unchanged, the single common name it was given as
/// its whole subject, a validity window starting now and spanning exactly
/// the given days (both instants keep the same sub-second offset, and the
/// encoder strips only nanoseconds), and a signature by the issuer's key,
/// which is the key of the authority's CA certificate; its PEM text is one
/// block armoured with line feeds. The bound on `validity_days` keeps the
/// `time` crate's duration and date arithmetic in range, where it would
/// otherwise panic.
#[verifier::external_body]
fn issue_leaf_certificate(
    csr_der: &[u8],
    device_cn: &[u8],
    validity_days: u64,
    ca: &CertificateAuthority,
) -> (r: Option<Vec<u8>>)
    requires
        validity_days <= 36_500,
    ensures
        r matches Some(leaf) ==> {
            &&& is_pem_block(leaf@)
            &&& cert_public_key_of(leaf@) == csr_public_key_of(csr_der@)
            &&& cert_subject_of(leaf@) == dn_for_cn(device_cn@)
            &&& verifies_under(leaf@, ca.spec_ca_pem())
            &&& cert_not_after_of(leaf@) == cert_not_before_of(leaf@) + validity_days
                * 86400
        },
{
    let cn = std::str::from_utf8(device_cn).ok()?;
    let wrapped = rustls_pki_types::CertificateSigningRequestDer::from(csr_der);
    let csr = rcgen::CertificateSigningRequestParams::from_der(&wrapped).ok()?;
    let mut params = rcgen::CertificateParams::new(vec![cn.to_string()]).ok()?;
    let mut dn = rcgen::DistinguishedName::new();
    dn.push(rcgen::DnType::CommonName, cn);
    params.distinguished_name = dn;
    params.not_before = time::OffsetDateTime::now_utc();
    params.not_after = params.not_before + time::Duration::days(validity_days as i64);
    let cert = params.signed_by(&csr.public_key, &ca.issuer).ok()?;
    Some(cert.pem().into_bytes())
}


/// Issuance is idempotent up to the validity window: two chains issued for
/// the same CSR bytes by the same authority carry leaf certificates with the
/// same subject and the same public key, and the same CA certificate; only
/// their validity windows (and signatures over them) may differ.
pub proof fn lemma_issue_idempotent(
    ca_pem: Seq<u8>,
    csr_body: Seq<u8>,
    chain1: Seq<u8>,
    chain2: Seq<u8>,
)
    requires
        issued_chain_ok(ca_pem, csr_body, chain1),
        issued_chain_ok(ca_pem, csr_body, chain2),
    ensures
        cert_subject_of(spec_parse_chain(chain1).unwrap().0) == cert_subject_of(
            spec_parse_chain(chain2).unwrap().0,
        ),
        cert_public_key_of(spec_parse_chain(chain1).unwrap().0) == cert_public_key_of(
            spec_parse_chain(chain2).unwrap().0,
        ),
        spec_parse_chain(chain1).unwrap().1 == spec_parse_chain(chain2).unwrap().1,
{
}

} // verus!
