//! The remote signing identity: a public key plus the capability to sign
//! through an external key-custody provider that never reveals the private
//! key itself. The provider is reached through the two-operation
//! `SignatureProvider` interface; an empty result from either operation is
//! the provider's failure signal, and a single failed call is definitive —
//! no retry is performed here.

use vstd::prelude::*;

use crate::errors::SignerError;
use crate::ECDSA_P256_SHA256_SCHEME;

verus! {

/// The two-operation interface of an external key-custody provider: produce
/// a signature over arbitrary bytes, and hand out the public key. Both calls
/// cross a trust boundary and may block for an unbounded time; an empty
/// result signals failure. Nothing further is assumed of an implementation:
/// every caller in this crate is verified for every possible result.
pub trait SignatureProvider {
    /// Sign exactly these message bytes with the custodied private key.
    fn sign_data(&self, message: &[u8]) -> Vec<u8>;

    /// The custodied key's public half, in the provider's fixed encoding.
    fn get_public_key(&self) -> Vec<u8>;
}

/// Accept a provider's output, or reject it with the given error exactly
/// when the provider signalled failure by returning no bytes.
pub fn classify_provider_output(output: Vec<u8>, failure: SignerError) -> (r: Result<
    Vec<u8>,
    SignerError,
>)
    ensures
        output@.len() == 0 ==> r == Err::<Vec<u8>, SignerError>(failure),
        output@.len() > 0 ==> r == Ok::<Vec<u8>, SignerError>(output),
{
    if output.len() == 0 {
        Err(failure)
    } else {
        Ok(output)
    }
}

/// The signing half of a remote identity: it remembers only the one
/// signature scheme the provider supports.
pub struct CallbackSigner {
    scheme: u16,
}

impl CallbackSigner {
    /// The advertised signature scheme.
    pub closed spec fn spec_scheme(self) -> u16 {
        self.scheme
    }

    /// A signer advertising ECDSA P-256 with SHA-256, the one scheme the
    /// external provider implements.
    pub fn new() -> (r: CallbackSigner)
        ensures
            r.spec_scheme() == ECDSA_P256_SHA256_SCHEME,
    {
        CallbackSigner { scheme: ECDSA_P256_SHA256_SCHEME }
    }

    /// Fetch the public key from the provider; an empty result is the
    /// provider's failure signal and becomes `KeyUnavailable`.
    pub fn get_public_key_der<P: SignatureProvider>(provider: &P) -> (r: Result<
        Vec<u8>,
        SignerError,
    >)
        ensures
            r matches Ok(k) ==> k@.len() > 0,
            r is Err ==> r == Err::<Vec<u8>, SignerError>(SignerError::KeyUnavailable),
    {
        classify_provider_output(provider.get_public_key(), SignerError::KeyUnavailable)
    }

    /// Forward exactly these message bytes to the provider and return its
    /// signature; an empty result becomes `SigningFailed`.
    pub fn sign<P: SignatureProvider>(&self, provider: &P, message: &[u8]) -> (r: Result<
        Vec<u8>,
        SignerError,
    >)
        ensures
            r matches Ok(s) ==> s@.len() > 0,
            r is Err ==> r == Err::<Vec<u8>, SignerError>(SignerError::SigningFailed),
    {
        classify_provider_output(provider.sign_data(message), SignerError::SigningFailed)
    }

    /// The one scheme this signer will ever use.
    pub fn scheme(&self) -> (r: u16)
        ensures
            r == self.spec_scheme(),
    {
        self.scheme
    }
}

/// A complete remote signing identity: the external provider, the signer,
/// and the public key fetched once at construction. This is the credential
/// half that pairs with an issued certificate chain; it holds no private key
/// material, only the capability to ask the provider for signatures.
pub struct CallbackSigningKey<P: SignatureProvider> {
    provider: P,
    signer: CallbackSigner,
    public_key_der: Vec<u8>,
}

impl<P: SignatureProvider> CallbackSigningKey<P> {
    /// The public key fetched at construction.
    pub closed spec fn spec_public_key(self) -> Seq<u8> {
        self.public_key_der@
    }

    /// The advertised signature scheme.
    pub closed spec fn spec_scheme(self) -> u16 {
        self.signer.spec_scheme()
    }

    /// A constructed identity holds a non-empty public key and advertises
    /// exactly the ECDSA P-256 SHA-256 scheme.
    pub open spec fn wf(self) -> bool {
        &&& self.spec_public_key().len() > 0
        &&& self.spec_scheme() == ECDSA_P256_SHA256_SCHEME
    }

    /// Build an identity by fetching the public key from the provider once;
    /// fails with `KeyUnavailable` when the provider returns no bytes.
    pub fn new(provider: P) -> (r: Result<CallbackSigningKey<P>, SignerError>)
        ensures
            r matches Ok(k) ==> k.wf(),
            r is Err ==> r == Err::<CallbackSigningKey<P>, SignerError>(SignerError::KeyUnavailable),
    {
        let public_key_der = match CallbackSigner::get_public_key_der(&provider) {
            Ok(k) => k,
            Err(e) => {
                return Err(e);
            },
        };
        Ok(CallbackSigningKey { provider, signer: CallbackSigner::new(), public_key_der })
    }

    /// The public key bytes, for embedding in a CSR or TLS credential.
    pub fn public_key_bytes(&self) -> (r: &Vec<u8>)
        ensures
            r@ == self.spec_public_key(),
    {
        &self.public_key_der
    }

    /// Sign a message through the provider; every signature is a fresh round
    /// trip, and an empty result becomes `SigningFailed`.
    pub fn sign(&self, message: &[u8]) -> (r: Result<Vec<u8>, SignerError>)
        ensures
            r matches Ok(s) ==> s@.len() > 0,
            r is Err ==> r == Err::<Vec<u8>, SignerError>(SignerError::SigningFailed),
    {
        self.signer.sign(&self.provider, message)
    }

    /// Pick the one supported scheme out of a peer's offer: the fixed ECDSA
    /// P-256 SHA-256 scheme if it is offered, and nothing otherwise — no
    /// negotiation to any other scheme is permitted.
    pub fn choose_scheme(&self, offered: &[u16]) -> (r: Option<u16>)
        ensures
            r is Some <==> offered@.contains(ECDSA_P256_SHA256_SCHEME),
            r matches Some(s) ==> s == ECDSA_P256_SHA256_SCHEME,
    {
        let mut i: usize = 0;
        while i < offered.len()
            invariant
                0 <= i <= offered@.len(),
                forall|k: int| 0 <= k < i ==> offered@[k] != ECDSA_P256_SHA256_SCHEME,
            decreases offered@.len() - i,
        {
            if *vstd::slice::slice_index_get(offered, i) == ECDSA_P256_SHA256_SCHEME {
                return Some(ECDSA_P256_SHA256_SCHEME);
            }
            i += 1;
        }
        None
    }
}

} // verus!
