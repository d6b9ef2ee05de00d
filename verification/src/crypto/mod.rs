//! Key agreement, key derivation and message authentication.
//!
//! A session's keys come from one X25519 exchange and two HKDF-SHA256
//! expansions with distinct info strings. Control messages are authenticated
//! by a detached ChaCha20-Poly1305 tag whose nonce is the sequence number.

use crate::bytes::{be_bytes, concat, ct_eq, to_array, to_vec, u64_be_bytes, zeros};
use crate::crypto::primitives::{
    aead_detached_tag, chacha20poly1305_tag, hkdf_expand_32, hkdf_sha256, x25519_diffie_hellman,
    x25519_generate, x25519_public, x25519_public_key, x25519_shared,
};
use vstd::array::array_as_slice;
use vstd::prelude::*;
use vstd::string::StringExecFns;

pub mod identity;
pub mod primitives;

verus! {

/// Algorithms supported for the initial key exchange.
#[derive(Debug, Clone, Copy, PartialEq, Eq, Structural)]
pub enum KeyExchangeAlgorithm {
    X25519,
    EcdhP256,
    /// No key exchange at all.
    NoKeyExchange,
}

/// Derived session key material.
#[derive(Debug)]
pub struct SessionKeys {
    pub shared_secret: Vec<u8>,
    pub control_key: [u8; 32],
    pub stream_key: [u8; 32],
}

/// The mathematical content of [`SessionKeys`].
pub struct KeyMaterial {
    pub shared_secret: Seq<u8>,
    pub control_key: Seq<u8>,
    pub stream_key: Seq<u8>,
}

impl View for SessionKeys {
    type V = KeyMaterial;

    open spec fn view(&self) -> KeyMaterial {
        KeyMaterial {
            shared_secret: self.shared_secret@,
            control_key: self.control_key@,
            stream_key: self.stream_key@,
        }
    }
}

impl Clone for SessionKeys {
    fn clone(&self) -> (copy: Self)
        ensures
            copy@ == self@,
    {
        SessionKeys {
            shared_secret: to_vec(self.shared_secret.as_slice()),
            control_key: self.control_key,
            stream_key: self.stream_key,
        }
    }
}

/// Cryptographic helper errors.
#[derive(Debug)]
pub enum CryptoError {
    InvalidPeerKey,
    Hkdf(String),
    Aead(String),
}

impl CryptoError {
    /// The reason as one line of text.
    pub open spec fn message_spec(self) -> Seq<char> {
        match self {
            CryptoError::InvalidPeerKey => "invalid peer public key"@,
            CryptoError::Hkdf(detail) => "hkdf expand error: "@ + detail@,
            CryptoError::Aead(detail) => "aead error: "@ + detail@,
        }
    }

    /// The reason as one line of text.
    pub fn message(&self) -> (text: String)
        ensures
            text@ == self.message_spec(),
    {
        match self {
            CryptoError::InvalidPeerKey => String::from_str("invalid peer public key"),
            CryptoError::Hkdf(detail) => String::from_str("hkdf expand error: ").concat(
                detail.as_str(),
            ),
            CryptoError::Aead(detail) => String::from_str("aead error: ").concat(detail.as_str()),
        }
    }
}

/// The HKDF info string of the control key: the ASCII of `alpine-control`.
pub open spec fn control_info() -> Seq<u8> {
    seq![97u8, 108, 112, 105, 110, 101, 45, 99, 111, 110, 116, 114, 111, 108]
}

/// The HKDF info string of the stream key: the ASCII of `alpine-stream`.
pub open spec fn stream_info() -> Seq<u8> {
    seq![97u8, 108, 112, 105, 110, 101, 45, 115, 116, 114, 101, 97, 109]
}

/// The keys of a session with the given ECDH output and salt: the two HKDF
/// expansions differ in their info strings alone.
pub open spec fn derive_from_shared(shared: Seq<u8>, salt: Seq<u8>) -> KeyMaterial {
    KeyMaterial {
        shared_secret: shared,
        control_key: hkdf_sha256(salt, shared, control_info(), 32),
        stream_key: hkdf_sha256(salt, shared, stream_info(), 32),
    }
}

/// What an X25519 party with `secret` derives against `peer_public`: nothing
/// unless the peer's key has 32 bytes.
pub open spec fn x25519_derive(secret: Seq<u8>, peer_public: Seq<u8>, salt: Seq<u8>) -> Option<
    KeyMaterial,
> {
    if peer_public.len() == 32 {
        Some(derive_from_shared(x25519_shared(secret, peer_public), salt))
    } else {
        None
    }
}

/// Behavior required to complete the handshake key agreement.
pub trait KeyExchange {
    /// The public key this party announces.
    spec fn public_key_spec(&self) -> Seq<u8>;

    /// The keys this party derives against a peer's key and a salt, or
    /// nothing where the derivation is refused.
    spec fn derive_spec(&self, peer_public_key: Seq<u8>, salt: Seq<u8>) -> Option<KeyMaterial>;

    /// What keys that were derived against a peer's key say of the keys that
    /// the peer derives on its side.
    spec fn agreement(&self, peer_public_key: Seq<u8>, salt: Seq<u8>, keys: KeyMaterial) -> bool;

    fn algorithm(&self) -> KeyExchangeAlgorithm;

    fn public_key(&self) -> (key: Vec<u8>)
        ensures
            key@ == self.public_key_spec(),
    ;

    fn derive_keys(&self, peer_public_key: &[u8], salt: &[u8]) -> (keys: Result<
        SessionKeys,
        CryptoError,
    >)
        ensures
            match keys {
                Ok(k) => self.derive_spec(peer_public_key@, salt@) == Some(k@) && self.agreement(
                    peer_public_key@,
                    salt@,
                    k@,
                ),
                Err(_) => self.derive_spec(peer_public_key@, salt@) is None,
            },
    ;
}

/// An X25519 key pair for one handshake.
pub struct X25519KeyExchange {
    public_key: [u8; 32],
    private_key: [u8; 32],
}

impl X25519KeyExchange {
    #[verifier::type_invariant]
    spec fn well_formed(self) -> bool {
        self.public_key@ == x25519_public(self.private_key@)
    }

    /// The secret half of the pair.
    pub closed spec fn secret(&self) -> Seq<u8> {
        self.private_key@
    }

    /// Hands the pair's invariant to a caller's proof: both halves have 32
    /// bytes. There is nothing to run.
    pub(crate) fn recall_lengths(&self)
        ensures
            self.secret().len() == 32,
            x25519_public(self.secret()).len() == 32,
    {
        proof {
            use_type_invariant(self);
        }
    }

    /// A secret has 32 bytes.
    pub proof fn lemma_secret_has_32_bytes(self)
        ensures
            self.secret().len() == 32,
    {
    }

    /// A pair with a fresh secret from the operating system's generator.
    /// Which secret it is, is left to chance; whichever it is, it has 32
    /// bytes, and so has the public key that belongs to it.
    pub fn new() -> (pair: Self)
        ensures
            pair.secret().len() == 32,
            pair.public_key_spec().len() == 32,
    {
        Self::from_secret(x25519_generate())
    }

    /// The pair of a given secret, for callers that bring their own
    /// randomness: the public key that belongs to the secret has 32 bytes.
    pub fn from_secret(secret: [u8; 32]) -> (pair: Self)
        ensures
            pair.secret() == secret@,
            pair.public_key_spec().len() == 32,
    {
        let public_key = x25519_public_key(&secret);
        X25519KeyExchange { public_key, private_key: secret }
    }
}

impl Default for X25519KeyExchange {
    /// As [`X25519KeyExchange::new`].
    fn default() -> (pair: Self)
        ensures
            pair.secret().len() == 32,
            pair.public_key_spec().len() == 32,
    {
        Self::new()
    }
}

impl KeyExchange for X25519KeyExchange {
    open spec fn public_key_spec(&self) -> Seq<u8> {
        x25519_public(self.secret())
    }

    open spec fn derive_spec(&self, peer_public_key: Seq<u8>, salt: Seq<u8>) -> Option<KeyMaterial> {
        x25519_derive(self.secret(), peer_public_key, salt)
    }

    /// Where the peer's key is the public key of a secret, the peer derives
    /// these very keys against our public key and the same salt.
    open spec fn agreement(&self, peer_public_key: Seq<u8>, salt: Seq<u8>, keys: KeyMaterial) -> bool {
        forall|other: Seq<u8>|
            other.len() == 32 && peer_public_key == x25519_public(other) ==> Some(keys)
                == #[trigger] x25519_derive(other, x25519_public(self.secret()), salt)
    }

    fn algorithm(&self) -> (algorithm: KeyExchangeAlgorithm)
        ensures
            algorithm == KeyExchangeAlgorithm::X25519,
    {
        KeyExchangeAlgorithm::X25519
    }

    /// The public key has 32 bytes.
    fn public_key(&self) -> (key: Vec<u8>)
        ensures
            key@ == x25519_public(self.secret()),
            key@.len() == 32,
    {
        proof {
            use_type_invariant(self);
        }
        to_vec(array_as_slice(&self.public_key))
    }

    /// Derives the session keys against a peer. A peer key of any length
    /// but 32 is refused as `InvalidPeerKey`, and nothing else is. The
    /// shared secret has 32 bytes, as have the two keys.
    fn derive_keys(&self, peer_public_key: &[u8], salt: &[u8]) -> (keys: Result<
        SessionKeys,
        CryptoError,
    >)
        ensures
            keys is Ok <==> peer_public_key@.len() == 32,
            keys matches Err(e) ==> e is InvalidPeerKey,
            keys matches Ok(k) ==> k@.shared_secret.len() == 32 && k@.control_key.len() == 32
                && k@.stream_key.len() == 32,
    {
        let peer: [u8; 32] = match to_array::<32>(peer_public_key) {
            Some(peer) => peer,
            None => {
                return Err(CryptoError::InvalidPeerKey);
            },
        };
        let shared = x25519_diffie_hellman(&self.private_key, &peer);
        let control = hkdf_expand_32(salt, array_as_slice(&shared), &CONTROL_INFO);
        let stream = hkdf_expand_32(salt, array_as_slice(&shared), &STREAM_INFO);
        assert(CONTROL_INFO@ =~= control_info());
        assert(STREAM_INFO@ =~= stream_info());
        match (control, stream) {
            (Ok(control_key), Ok(stream_key)) => {
                let keys = SessionKeys {
                    shared_secret: to_vec(array_as_slice(&shared)),
                    control_key,
                    stream_key,
                };
                proof {
                    use_type_invariant(self);
                }
                Ok(keys)
            },
            _ => Err(CryptoError::Hkdf(String::from_str("InvalidLength"))),
        }
    }
}

/// Interface that would wrap an external TLS channel when available.
pub trait TlsWrapper {
    fn wrap_stream(&self, plaintext: &[u8]) -> Vec<u8>;

    fn unwrap_stream(&self, ciphertext: &[u8]) -> Vec<u8>;
}

const CONTROL_INFO: [u8; 14] = [97, 108, 112, 105, 110, 101, 45, 99, 111, 110, 116, 114, 111, 108];

const STREAM_INFO: [u8; 13] = [97, 108, 112, 105, 110, 101, 45, 115, 116, 114, 101, 97, 109];

/// The AEAD nonce of sequence number `seq`: its eight bytes, most
/// significant first, then four zero bytes.
pub open spec fn mac_nonce(seq: u64) -> Seq<u8> {
    be_bytes(seq) + zeros(4)
}

/// The authentication tag of `payload` under `control_key`, bound to `seq`
/// and to the context bytes `aad`: the tag of the empty message whose
/// associated data is `aad` followed by `payload`.
pub open spec fn mac_spec(control_key: Seq<u8>, seq: u64, payload: Seq<u8>, aad: Seq<u8>) -> Seq<u8> {
    chacha20poly1305_tag(control_key, mac_nonce(seq), aad + payload)
}

/// Whether `mac` is the tag that [`mac_spec`] gives.
pub open spec fn mac_accepts(
    control_key: Seq<u8>,
    seq: u64,
    payload: Seq<u8>,
    aad: Seq<u8>,
    mac: Seq<u8>,
) -> bool {
    mac == mac_spec(control_key, seq, payload, aad)
}

/// A tag that was computed for a payload is accepted for that payload,
/// under the same key, sequence number and context.
pub proof fn lemma_computed_mac_verifies(control_key: Seq<u8>, seq: u64, payload: Seq<u8>, aad: Seq<u8>)
    ensures
        mac_accepts(control_key, seq, payload, aad, mac_spec(control_key, seq, payload, aad)),
{
}

fn nonce_for(seq: u64) -> (nonce: [u8; 12])
    ensures
        nonce@ == mac_nonce(seq),
{
    let b = u64_be_bytes(seq);
    let nonce: [u8; 12] = [b[0], b[1], b[2], b[3], b[4], b[5], b[6], b[7], 0, 0, 0, 0];
    assert(nonce@ =~= mac_nonce(seq));
    nonce
}

/// Compute an authentication tag for a control payload using the derived
/// control key. The call always succeeds, and the tag has 16 bytes.
pub fn compute_mac(keys: &SessionKeys, seq: u64, payload: &[u8], aad: &[u8]) -> (mac: Result<
    Vec<u8>,
    CryptoError,
>)
    ensures
        mac matches Ok(tag) && tag@ == mac_spec(keys@.control_key, seq, payload@, aad@)
            && tag@.len() == 16,
{
    let nonce = nonce_for(seq);
    let data = concat(aad, payload);
    match aead_detached_tag(&keys.control_key, &nonce, data.as_slice()) {
        Ok(tag) => Ok(to_vec(array_as_slice(&tag))),
        Err(_) => Err(CryptoError::Aead(String::from_str("aead::Error"))),
    }
}

/// Validate an authentication tag for a control payload: true exactly for
/// the tag that [`compute_mac`] returns, so never for a tag of any length
/// but 16. The comparison reads every byte of both tags.
pub fn verify_mac(keys: &SessionKeys, seq: u64, payload: &[u8], aad: &[u8], mac: &[u8]) -> (valid:
    bool)
    ensures
        valid == mac_accepts(keys@.control_key, seq, payload@, aad@, mac@),
        mac@.len() != 16 ==> !valid,
{
    match compute_mac(keys, seq, payload, aad) {
        Ok(expected) => {
            if mac.len() != 16 {
                return false;
            }
            ct_eq(expected.as_slice(), mac)
        },
        Err(_) => false,
    }
}

} // verus!
