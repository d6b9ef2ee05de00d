//! A node's Ed25519 credentials.
//!
//! The keys are held as their 32-byte encodings: the seed of the signing
//! key, and the compressed point of the verifying key.

use crate::crypto::primitives::{
    ed25519_public, ed25519_public_from_spki, ed25519_public_key, ed25519_seed_from_pkcs8,
    ed25519_sign, ed25519_signature, ed25519_verifies, ed25519_verify, pem_first_certificate,
    pem_first_pkcs8_key, pkcs8_ed25519_seed, read_first_certificate, read_first_pkcs8_key,
    spki_ed25519_public,
};
use vstd::prelude::*;
use vstd::string::StringExecFns;

verus! {

/// Ed25519 credentials of a node.
#[derive(Debug, Clone, Copy)]
pub struct NodeCredentials {
    pub signing: [u8; 32],
    pub verifying: [u8; 32],
}

/// Why credentials could not be read.
#[derive(Debug)]
pub enum IdentityError {
    Pem(String),
    MissingKey,
}

impl IdentityError {
    /// The reason as one line of text.
    pub open spec fn message_spec(self) -> Seq<char> {
        match self {
            IdentityError::Pem(detail) => "failed to parse PEM: "@ + detail@,
            IdentityError::MissingKey => "missing key material in PEM"@,
        }
    }

    /// The reason as one line of text.
    pub fn message(&self) -> (text: String)
        ensures
            text@ == self.message_spec(),
    {
        match self {
            IdentityError::Pem(detail) => String::from_str("failed to parse PEM: ").concat(
                detail.as_str(),
            ),
            IdentityError::MissingKey => String::from_str("missing key material in PEM"),
        }
    }
}

/// What a PEM text yields as a signing key: the seed in its first PKCS#8
/// section; `MissingKey` where there is no such section; and a PEM error
/// with the reader's or the decoder's words where one of them fails.
pub open spec fn signing_pem_outcome(pem: Seq<u8>) -> Result<Seq<u8>, IdentityFailure> {
    match pem_first_pkcs8_key(pem) {
        None => Err(IdentityFailure::MissingKey),
        Some(Err(e)) => Err(IdentityFailure::Pem("pkcs8 parse: "@ + e)),
        Some(Ok(der)) => match pkcs8_ed25519_seed(der) {
            Ok(seed) => Ok(seed),
            Err(e) => Err(IdentityFailure::Pem(e)),
        },
    }
}

/// What a PEM text yields as a verifying key: the public key in its first
/// certificate section, with the failures as for signing keys.
pub open spec fn verifying_pem_outcome(pem: Seq<u8>) -> Result<Seq<u8>, IdentityFailure> {
    match pem_first_certificate(pem) {
        None => Err(IdentityFailure::MissingKey),
        Some(Err(e)) => Err(IdentityFailure::Pem("cert parse: "@ + e)),
        Some(Ok(der)) => match spki_ed25519_public(der) {
            Ok(public) => Ok(public),
            Err(e) => Err(IdentityFailure::Pem(e)),
        },
    }
}

/// The mathematical content of an [`IdentityError`].
pub enum IdentityFailure {
    Pem(Seq<char>),
    MissingKey,
}

impl View for IdentityError {
    type V = IdentityFailure;

    open spec fn view(&self) -> IdentityFailure {
        match self {
            IdentityError::Pem(detail) => IdentityFailure::Pem(detail@),
            IdentityError::MissingKey => IdentityFailure::MissingKey,
        }
    }
}

impl NodeCredentials {
    /// Reads a signing key from the text of a PEM file.
    pub fn load_signing_pem(pem: &[u8]) -> (seed: Result<[u8; 32], IdentityError>)
        ensures
            match seed {
                Ok(bytes) => signing_pem_outcome(pem@) == Ok::<Seq<u8>, IdentityFailure>(bytes@),
                Err(e) => signing_pem_outcome(pem@) == Err::<Seq<u8>, IdentityFailure>(e@),
            },
    {
        let der = match read_first_pkcs8_key(pem) {
            None => {
                return Err(IdentityError::MissingKey);
            },
            Some(Err(e)) => {
                return Err(
                    IdentityError::Pem(String::from_str("pkcs8 parse: ").concat(e.as_str())),
                );
            },
            Some(Ok(der)) => der,
        };
        match ed25519_seed_from_pkcs8(der.as_slice()) {
            Ok(seed) => Ok(seed),
            Err(e) => Err(IdentityError::Pem(e)),
        }
    }

    /// Reads a verifying key from the text of a PEM file.
    pub fn load_verifying_pem(pem: &[u8]) -> (public: Result<[u8; 32], IdentityError>)
        ensures
            match public {
                Ok(bytes) => verifying_pem_outcome(pem@) == Ok::<Seq<u8>, IdentityFailure>(
                    bytes@,
                ),
                Err(e) => verifying_pem_outcome(pem@) == Err::<Seq<u8>, IdentityFailure>(e@),
            },
    {
        let der = match read_first_certificate(pem) {
            None => {
                return Err(IdentityError::MissingKey);
            },
            Some(Err(e)) => {
                return Err(
                    IdentityError::Pem(String::from_str("cert parse: ").concat(e.as_str())),
                );
            },
            Some(Ok(der)) => der,
        };
        match ed25519_public_from_spki(der.as_slice()) {
            Ok(public) => Ok(public),
            Err(e) => Err(IdentityError::Pem(e)),
        }
    }

    /// The credentials of a signing seed: the seed, and the public key that
    /// belongs to it.
    pub fn from_seed(seed: [u8; 32]) -> (credentials: Self)
        ensures
            credentials.signing@ == seed@,
            credentials.verifying@ == ed25519_public(seed@),
    {
        NodeCredentials { signing: seed, verifying: ed25519_public_key(&seed) }
    }

    /// Credentials that sign with `seed` and verify against a given key,
    /// which may be a peer's.
    pub fn new(seed: [u8; 32], verifying: [u8; 32]) -> (credentials: Self)
        ensures
            credentials.signing == seed,
            credentials.verifying == verifying,
    {
        NodeCredentials { signing: seed, verifying }
    }

    /// The Ed25519 signature of `data` under the signing key.
    pub fn sign(&self, data: &[u8]) -> (signature: [u8; 64])
        ensures
            signature@ == ed25519_signature(self.signing@, data@),
    {
        ed25519_sign(&self.signing, data)
    }

    /// Whether `signature` is a valid signature of `data` under the
    /// verifying key.
    pub fn verify(&self, data: &[u8], signature: &[u8; 64]) -> (valid: bool)
        ensures
            valid == ed25519_verifies(self.verifying@, data@, signature@),
    {
        ed25519_verify(&self.verifying, data, signature)
    }
}

} // verus!
