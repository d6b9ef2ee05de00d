//! The cryptographic primitives, taken from the RustCrypto and dalek crates.
//!
//! Nothing in this file is proved. Each function below hands plain bytes to
//! one outside primitive and brings plain bytes back; its contract is what
//! the rest of the crate believes about that primitive. Where the primitive
//! is a deterministic function of its arguments, the contract gives the
//! result a name, and the verified code reasons about the name alone.

use chacha20poly1305::aead::AeadInPlace;
use chacha20poly1305::KeyInit;
use ed25519_dalek::pkcs8::DecodePrivateKey;
use ed25519_dalek::pkcs8::DecodePublicKey;
use ed25519_dalek::Signer;
use ed25519_dalek::Verifier;
use rand::RngCore;
use vstd::prelude::*;

verus! {

/// The error type of the AEAD crate.
#[verifier::external_type_specification]
#[verifier::external_body]
pub struct ExAeadError(chacha20poly1305::Error);

/// The error type of HKDF-Expand.
#[verifier::external_type_specification]
#[verifier::external_body]
pub struct ExHkdfInvalidLength(hkdf::InvalidLength);

/// The Poly1305 tag that ChaCha20-Poly1305 computes under `key` and `nonce`
/// when it seals the empty message with associated data `aad`.
pub uninterp spec fn chacha20poly1305_tag(key: Seq<u8>, nonce: Seq<u8>, aad: Seq<u8>) -> Seq<u8>;

/// The output keying material of HKDF-SHA256 (extract, then expand to `len`
/// bytes) for the given salt, input keying material and info string.
pub uninterp spec fn hkdf_sha256(salt: Seq<u8>, ikm: Seq<u8>, info: Seq<u8>, len: nat) -> Seq<u8>;

/// The X25519 public key that belongs to a 32-byte secret.
pub uninterp spec fn x25519_public(secret: Seq<u8>) -> Seq<u8>;

/// The X25519 function of a 32-byte secret and a peer's 32-byte public key.
pub uninterp spec fn x25519_shared(secret: Seq<u8>, peer_public: Seq<u8>) -> Seq<u8>;

/// The Ed25519 public key that belongs to a 32-byte seed.
pub uninterp spec fn ed25519_public(seed: Seq<u8>) -> Seq<u8>;

/// The Ed25519 signature of `message` under the key expanded from `seed`.
pub uninterp spec fn ed25519_signature(seed: Seq<u8>, message: Seq<u8>) -> Seq<u8>;

/// Whether `public` decodes to an Ed25519 key under which `signature` is a
/// valid signature of `message`.
pub uninterp spec fn ed25519_verifies(public: Seq<u8>, message: Seq<u8>, signature: Seq<u8>) -> bool;

/// `ChaCha20Poly1305::encrypt_in_place_detached` on an empty buffer.
///
/// The crate refuses a buffer of 2^32 blocks or more and lengths beyond 64
/// bits; an empty buffer and a slice are within both limits, so the call
/// returns a tag. The tag is the named function of key, nonce and
/// associated data.
#[verifier::external_body]
pub(crate) fn aead_detached_tag(key: &[u8; 32], nonce: &[u8; 12], aad: &[u8]) -> (tag: Result<
    [u8; 16],
    chacha20poly1305::Error,
>)
    ensures
        tag is Ok,
        tag matches Ok(t) ==> t@ == chacha20poly1305_tag(key@, nonce@, aad@),
{
    let cipher = chacha20poly1305::ChaCha20Poly1305::new(chacha20poly1305::Key::from_slice(key));
    let mut empty: [u8; 0] = [];
    match cipher.encrypt_in_place_detached(
        chacha20poly1305::Nonce::from_slice(nonce),
        aad,
        &mut empty,
    ) {
        Ok(tag) => Ok(tag.into()),
        Err(e) => Err(e),
    }
}

/// `Hkdf::<Sha256>::new(Some(salt), ikm)` followed by `expand(info, ..)` into
/// 32 bytes.
///
/// Expansion fails only for more than 255 blocks of output; 32 bytes are one
/// block, so the call returns the key, which is the named function of salt,
/// input keying material and info.
#[verifier::external_body]
pub(crate) fn hkdf_expand_32(salt: &[u8], ikm: &[u8], info: &[u8]) -> (okm: Result<
    [u8; 32],
    hkdf::InvalidLength,
>)
    ensures
        okm is Ok,
        okm matches Ok(k) ==> k@ == hkdf_sha256(salt@, ikm@, info@, 32),
{
    let mut okm = [0u8; 32];
    match hkdf::Hkdf::<sha2::Sha256>::new(Some(salt), ikm).expand(info, &mut okm) {
        Ok(_) => Ok(okm),
        Err(e) => Err(e),
    }
}

/// `StaticSecret::random_from_rng(OsRng)`: a fresh X25519 secret from the
/// operating system's generator. Nothing is promised of the bytes.
#[verifier::external_body]
pub(crate) fn x25519_generate() -> (secret: [u8; 32]) {
    x25519_dalek::StaticSecret::random_from_rng(rand::rngs::OsRng).to_bytes()
}

/// `PublicKey::from(&StaticSecret)`: the public key of a secret.
#[verifier::external_body]
pub(crate) fn x25519_public_key(secret: &[u8; 32]) -> (public: [u8; 32])
    ensures
        public@ == x25519_public(secret@),
{
    x25519_dalek::PublicKey::from(&x25519_dalek::StaticSecret::from(*secret)).to_bytes()
}

/// `StaticSecret::diffie_hellman`: the secret shared with a peer.
///
/// Besides naming the result, the contract states the one law that makes a
/// key exchange of it, as the crate documents it: where the peer's key is the
/// public key of some secret, that peer computes the same bytes from our
/// public key.
#[verifier::external_body]
pub(crate) fn x25519_diffie_hellman(secret: &[u8; 32], peer_public: &[u8; 32]) -> (shared: [u8; 32])
    ensures
        shared@ == x25519_shared(secret@, peer_public@),
        forall|other: Seq<u8>|
            other.len() == 32 && peer_public@ == x25519_public(other) ==> shared@
                == #[trigger] x25519_shared(other, x25519_public(secret@)),
{
    x25519_dalek::StaticSecret::from(*secret).diffie_hellman(
        &x25519_dalek::PublicKey::from(*peer_public),
    ).to_bytes()
}

/// `SigningKey::verifying_key`: the public key of an Ed25519 seed.
#[verifier::external_body]
pub(crate) fn ed25519_public_key(seed: &[u8; 32]) -> (public: [u8; 32])
    ensures
        public@ == ed25519_public(seed@),
{
    ed25519_dalek::SigningKey::from_bytes(seed).verifying_key().to_bytes()
}

/// `SigningKey::sign`: Ed25519 signatures are deterministic, so the result
/// is the named function of seed and message.
#[verifier::external_body]
pub(crate) fn ed25519_sign(seed: &[u8; 32], message: &[u8]) -> (signature: [u8; 64])
    ensures
        signature@ == ed25519_signature(seed@, message@),
{
    ed25519_dalek::SigningKey::from_bytes(seed).sign(message).to_bytes()
}

/// `VerifyingKey::verify`, preceded by `VerifyingKey::from_bytes`: false
/// where the key bytes are no curve point, else whether the signature
/// verifies.
#[verifier::external_body]
pub(crate) fn ed25519_verify(public: &[u8; 32], message: &[u8], signature: &[u8; 64]) -> (valid:
    bool)
    ensures
        valid == ed25519_verifies(public@, message@, signature@),
{
    match ed25519_dalek::VerifyingKey::from_bytes(public) {
        Ok(key) => key.verify(message, &ed25519_dalek::Signature::from_bytes(signature)).is_ok(),
        Err(_) => false,
    }
}

/// The first PKCS#8 private key among the PEM sections of a text: nothing
/// where there is none, else its DER bytes, or the text of the error that
/// the reader met on the way to it.
pub uninterp spec fn pem_first_pkcs8_key(pem: Seq<u8>) -> Option<Result<Seq<u8>, Seq<char>>>;

/// The first certificate among the PEM sections of a text, as
/// [`pem_first_pkcs8_key`] for keys.
pub uninterp spec fn pem_first_certificate(pem: Seq<u8>) -> Option<Result<Seq<u8>, Seq<char>>>;

/// The Ed25519 seed in a PKCS#8 document, or the text of the decoder's
/// error.
pub uninterp spec fn pkcs8_ed25519_seed(der: Seq<u8>) -> Result<Seq<u8>, Seq<char>>;

/// The Ed25519 public key in a SubjectPublicKeyInfo document, or the text
/// of the decoder's error.
pub uninterp spec fn spki_ed25519_public(der: Seq<u8>) -> Result<Seq<u8>, Seq<char>>;

/// `rustls_pemfile::pkcs8_private_keys(..).next()` on a text in memory.
#[verifier::external_body]
pub(crate) fn read_first_pkcs8_key(pem: &[u8]) -> (found: Option<Result<Vec<u8>, String>>)
    ensures
        match found {
            None => pem_first_pkcs8_key(pem@) is None,
            Some(Ok(der)) => pem_first_pkcs8_key(pem@) == Some(Ok::<Seq<u8>, Seq<char>>(der@)),
            Some(Err(e)) => pem_first_pkcs8_key(pem@) == Some(Err::<Seq<u8>, Seq<char>>(e@)),
        },
{
    let mut reader = pem;
    let first = rustls_pemfile::pkcs8_private_keys(&mut reader).next();
    match first {
        Some(Ok(key)) => Some(Ok(key.secret_pkcs8_der().to_vec())),
        Some(Err(e)) => Some(Err(e.to_string())),
        None => None,
    }
}

/// `rustls_pemfile::certs(..).next()` on a text in memory.
#[verifier::external_body]
pub(crate) fn read_first_certificate(pem: &[u8]) -> (found: Option<Result<Vec<u8>, String>>)
    ensures
        match found {
            None => pem_first_certificate(pem@) is None,
            Some(Ok(der)) => pem_first_certificate(pem@) == Some(Ok::<Seq<u8>, Seq<char>>(der@)),
            Some(Err(e)) => pem_first_certificate(pem@) == Some(Err::<Seq<u8>, Seq<char>>(e@)),
        },
{
    let mut reader = pem;
    let first = rustls_pemfile::certs(&mut reader).next();
    match first {
        Some(Ok(cert)) => Some(Ok(cert.as_ref().to_vec())),
        Some(Err(e)) => Some(Err(e.to_string())),
        None => None,
    }
}

/// `SigningKey::from_pkcs8_der`, with the key as its seed.
#[verifier::external_body]
pub(crate) fn ed25519_seed_from_pkcs8(der: &[u8]) -> (seed: Result<[u8; 32], String>)
    ensures
        match seed {
            Ok(bytes) => pkcs8_ed25519_seed(der@) == Ok::<Seq<u8>, Seq<char>>(bytes@),
            Err(e) => pkcs8_ed25519_seed(der@) == Err::<Seq<u8>, Seq<char>>(e@),
        },
{
    match ed25519_dalek::SigningKey::from_pkcs8_der(der) {
        Ok(key) => Ok(key.to_bytes()),
        Err(e) => Err(e.to_string()),
    }
}

/// `VerifyingKey::from_public_key_der`, with the key as its 32 bytes.
#[verifier::external_body]
pub(crate) fn ed25519_public_from_spki(der: &[u8]) -> (public: Result<[u8; 32], String>)
    ensures
        match public {
            Ok(bytes) => spki_ed25519_public(der@) == Ok::<Seq<u8>, Seq<char>>(bytes@),
            Err(e) => spki_ed25519_public(der@) == Err::<Seq<u8>, Seq<char>>(e@),
        },
{
    match ed25519_dalek::VerifyingKey::from_public_key_der(der) {
        Ok(key) => Ok(key.to_bytes()),
        Err(e) => Err(e.to_string()),
    }
}

/// `OsRng.fill_bytes` on `N` bytes. Nothing is promised of the bytes; the
/// call aborts the process if the operating system has no randomness to
/// give.
#[verifier::external_body]
pub(crate) fn random_bytes<const N: usize>() -> (bytes: [u8; N]) {
    let mut bytes = [0u8; N];
    rand::rngs::OsRng.fill_bytes(&mut bytes);
    bytes
}

} // verus!
