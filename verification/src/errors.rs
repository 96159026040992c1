//! Error kinds for the certificate authority, chain handling, the remote
//! signer, and the TLS endpoint. Rejections are reported as human-readable
//! text naming which check failed, never as bare codes.

use vstd::prelude::*;

verus! {

/// Why the certificate authority rejected an issuance request.
#[derive(Clone, Copy, PartialEq, Eq, Structural, Debug)]
pub enum IssueError {
    /// The request was not a parseable PEM block carrying a certificate
    /// request, or its binary payload did not decode as a CSR.
    MalformedRequest,
    /// The requested subject does not belong to the one identity class the
    /// authority serves.
    UnauthorizedSubject,
    /// The CSR's self-signature did not verify against its embedded public
    /// key, so possession of the private key was not proven.
    InvalidProofOfPossession,
}

impl IssueError {
    /// The operator-facing reason text for this rejection.
    pub open spec fn spec_reason(self) -> Seq<char> {
        match self {
            IssueError::MalformedRequest => "malformed request: not a parseable certificate request"@,
            IssueError::UnauthorizedSubject => "unauthorized subject: DN does not name the required identity"@,
            IssueError::InvalidProofOfPossession => "invalid proof of possession: CSR self-signature did not verify"@,
        }
    }

    /// Human-readable text naming which check failed.
    pub fn reason(&self) -> (r: &'static str)
        ensures
            r@ == self.spec_reason(),
    {
        match self {
            IssueError::MalformedRequest => "malformed request: not a parseable certificate request",
            IssueError::UnauthorizedSubject => "unauthorized subject: DN does not name the required identity",
            IssueError::InvalidProofOfPossession => "invalid proof of possession: CSR self-signature did not verify",
        }
    }
}

/// Why a certificate chain could not be taken apart.
#[derive(Clone, Copy, PartialEq, Eq, Structural, Debug)]
pub enum ChainError {
    /// Fewer than two complete PEM blocks were present where a leaf and an
    /// issuer certificate are required.
    ChainTooShort,
}

impl ChainError {
    /// Human-readable text for this failure.
    pub fn reason(&self) -> (r: &'static str)
        ensures
            r@ == "chain too short: expected two PEM blocks"@,
    {
        "chain too short: expected two PEM blocks"
    }
}

/// Why the remote signing identity could not serve a request.
#[derive(Clone, Copy, PartialEq, Eq, Structural, Debug)]
pub enum SignerError {
    /// The external key-custody provider returned an empty public key.
    KeyUnavailable,
    /// The external key-custody provider returned an empty signature.
    SigningFailed,
}

impl SignerError {
    /// The operator-facing reason text for this failure.
    pub open spec fn spec_reason(self) -> Seq<char> {
        match self {
            SignerError::KeyUnavailable => "key unavailable: provider returned an empty public key"@,
            SignerError::SigningFailed => "signing failed: provider returned an empty signature"@,
        }
    }

    /// Human-readable text naming which provider call failed.
    pub fn reason(&self) -> (r: &'static str)
        ensures
            r@ == self.spec_reason(),
    {
        match self {
            SignerError::KeyUnavailable => "key unavailable: provider returned an empty public key",
            SignerError::SigningFailed => "signing failed: provider returned an empty signature",
        }
    }
}

/// Why a one-shot TLS exchange failed.
#[derive(Clone, Copy, PartialEq, Eq, Structural, Debug)]
pub enum TlsError {
    /// The server could not bind its listening socket.
    BindError,
    /// The client could not open a connection to its peer.
    ConnectError,
    /// The TLS handshake did not complete.
    HandshakeFailed,
}

impl TlsError {
    /// The operator-facing reason text for this failure.
    pub open spec fn spec_reason(self) -> Seq<char> {
        match self {
            TlsError::BindError => "bind error: could not bind the listening socket"@,
            TlsError::ConnectError => "connect error: could not reach the peer"@,
            TlsError::HandshakeFailed => "handshake failed: the TLS handshake did not complete"@,
        }
    }

    /// Human-readable text naming which step failed.
    pub fn reason(&self) -> (r: &'static str)
        ensures
            r@ == self.spec_reason(),
    {
        match self {
            TlsError::BindError => "bind error: could not bind the listening socket",
            TlsError::ConnectError => "connect error: could not reach the peer",
            TlsError::HandshakeFailed => "handshake failed: the TLS handshake did not complete",
        }
    }
}

} // verus!
