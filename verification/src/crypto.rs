//! The crypto primitives adapter: X25519 key agreement, SHA-256,
//! HMAC-SHA256, AES-256-GCM sealing and opening, fresh session identifiers
//! and the current time. Each outside call stands behind one trusted item;
//! results that are functions of the arguments alone are given names that
//! the callers' contracts speak of.
use hmac::Mac;
use sha2::Digest;
use vstd::prelude::*;

verus! {

/// The SHA-256 digest of a byte string.
pub uninterp spec fn sha256_of(data: Seq<u8>) -> Seq<u8>;

/// Relies on sha2::Sha256: a 32-byte digest depending on the input alone.
#[verifier::external_body]
pub(crate) fn sha256(data: &Vec<u8>) -> (r: [u8; 32])
    ensures
        r@ == sha256_of(data@),
{
    let mut hasher = sha2::Sha256::new();
    hasher.update(data.as_slice());
    hasher.finalize().into()
}

/// The HMAC-SHA256 tag of a message under a key.
pub uninterp spec fn hmac_sha256_of(key: Seq<u8>, msg: Seq<u8>) -> Seq<u8>;

/// Relies on hmac::Hmac over sha2::Sha256: accepts a key of any length and
/// returns a 32-byte tag depending on key and message alone.
#[verifier::external_body]
pub(crate) fn hmac_sha256(key: &Vec<u8>, msg: &Vec<u8>) -> (r: Vec<u8>)
    ensures
        r@ == hmac_sha256_of(key@, msg@),
        r@.len() == 32,
{
    let mut mac = hmac::Hmac::<sha2::Sha256>::new_from_slice(key.as_slice())
        .expect("any key length is accepted");
    mac.update(msg.as_slice());
    mac.finalize().into_bytes().to_vec()
}

/// The X25519 public key derived from 32 secret bytes.
pub uninterp spec fn x25519_public_of(secret: Seq<u8>) -> Seq<u8>;

/// Relies on x25519_dalek::PublicKey::from(&StaticSecret): the public key is
/// a function of the 32 secret bytes alone.
#[verifier::external_body]
pub(crate) fn x25519_public_key(secret: &[u8; 32]) -> (r: [u8; 32])
    ensures
        r@ == x25519_public_of(secret@),
{
    x25519_dalek::PublicKey::from(&x25519_dalek::StaticSecret::from(*secret)).to_bytes()
}

/// The X25519 shared point computed from own secret bytes and a peer public
/// key.
pub uninterp spec fn x25519_shared_of(secret: Seq<u8>, peer_public: Seq<u8>) -> Seq<u8>;

/// Relies on x25519_dalek::StaticSecret::diffie_hellman: the shared point is
/// a function of the secret and the peer public key alone.
#[verifier::external_body]
pub(crate) fn x25519_shared_secret(secret: &[u8; 32], peer_public: &[u8; 32]) -> (r: [u8; 32])
    ensures
        r@ == x25519_shared_of(secret@, peer_public@),
{
    x25519_dalek::StaticSecret::from(*secret).diffie_hellman(
        &x25519_dalek::PublicKey::from(*peer_public),
    ).to_bytes()
}

/// Relies on x25519_dalek::StaticSecret::random_from_rng with the operating
/// system's randomness; nothing is promised of the bytes drawn.
#[verifier::external_body]
pub(crate) fn gen_secret_key() -> (r: [u8; 32]) {
    x25519_dalek::StaticSecret::random_from_rng(rand_core::OsRng).to_bytes()
}

/// What AES-256-GCM opening yields for a key, a nonce and a
/// ciphertext-with-tag: the plaintext when the tag verifies, nothing
/// otherwise. Deterministic in its three arguments.
pub uninterp spec fn aead_open_of(key: Seq<u8>, nonce: Seq<u8>, data: Seq<u8>) -> Option<Seq<u8>>;

/// Relies on ring's AES-256-GCM seal_in_place_append_tag: with a 32-byte key
/// it seals under a freshly drawn random 12-byte nonce, appending the
/// 16-byte tag, and ring's open with the same key and nonce recovers exactly
/// the sealed bytes. It fails only on a wrong key size or on input beyond
/// AES-GCM's length bound; a failure of the operating system's randomness
/// aborts instead of returning.
#[verifier::external_body]
pub(crate) fn aead_seal(key: &Vec<u8>, data: Vec<u8>) -> (r: Option<([u8; 12], Vec<u8>)>)
    ensures
        match r {
            Some(sealed) => {
                &&& key@.len() == 32
                &&& sealed.1@.len() == data@.len() + 16
                &&& aead_open_of(key@, sealed.0@, sealed.1@) == Some(data@)
            },
            None => key@.len() != 32 || data@.len() >= 0x1_0000_0000,
        },
{
    let unbound = ring::aead::UnboundKey::new(&ring::aead::AES_256_GCM, key.as_slice()).ok()?;
    let sealing_key = ring::aead::LessSafeKey::new(unbound);
    let rng = ring::rand::SystemRandom::new();
    let mut nonce_bytes = [0u8; 12];
    ring::rand::SecureRandom::fill(&rng, &mut nonce_bytes).expect("system randomness failed");
    let nonce = ring::aead::Nonce::assume_unique_for_key(nonce_bytes);
    let mut buf = data;
    match sealing_key.seal_in_place_append_tag(nonce, ring::aead::Aad::empty(), &mut buf) {
        Ok(()) => Some((nonce_bytes, buf)),
        Err(_) => None,
    }
}

/// Relies on ring's AES-256-GCM open_in_place: deterministic in key, nonce
/// and ciphertext; yields the plaintext exactly when the tag verifies and
/// fails otherwise, releasing nothing.
#[verifier::external_body]
pub(crate) fn aead_open(key: &Vec<u8>, nonce: &[u8; 12], data: Vec<u8>) -> (r: Option<Vec<u8>>)
    requires
        key@.len() == 32,
    ensures
        match r {
            Some(pt) => aead_open_of(key@, nonce@, data@) == Some(pt@) && pt@.len() + 16
                == data@.len(),
            None => aead_open_of(key@, nonce@, data@) is None,
        },
{
    let unbound = ring::aead::UnboundKey::new(&ring::aead::AES_256_GCM, key.as_slice()).ok()?;
    let opening_key = ring::aead::LessSafeKey::new(unbound);
    let n = ring::aead::Nonce::assume_unique_for_key(*nonce);
    let mut buf = data;
    match opening_key.open_in_place(n, ring::aead::Aad::empty(), &mut buf) {
        Ok(pt) => Some(pt.to_vec()),
        Err(_) => None,
    }
}

/// Relies on uuid::Uuid::new_v4 and its hyphenated string form: a freshly
/// drawn random identifier, 36 characters long.
#[allow(non_snake_case)]
#[verifier::external_body]
pub fn new_nTor_session_id() -> (r: String)
    ensures
        r@.len() == 36,
{
    uuid::Uuid::new_v4().to_string()
}

/// Relies on chrono::Utc::now().timestamp(): the current Unix time in
/// seconds; its magnitude always fits below 2^63.
#[verifier::external_body]
pub(crate) fn now_unix() -> (r: u64)
    ensures
        r <= 0x8000_0000_0000_0000,
{
    chrono::Utc::now().timestamp().unsigned_abs()
}

} // verus!
