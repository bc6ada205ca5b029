//! The ntor handshake engine, server side: a static long-term key pair, a
//! per-session ephemeral key pair, and the responder step that derives a
//! 16-byte shared secret and an authentication tag from two X25519
//! agreements. On top of it the secure channel codec: a symmetric key
//! derived from the shared secret, AES-256-GCM sealing under a fresh random
//! nonce, and fail-closed opening.
use crate::crypto::{
    aead_open, aead_open_of, aead_seal, gen_secret_key, hmac_sha256, hmac_sha256_of, sha256,
    sha256_of, x25519_public_key, x25519_public_of, x25519_shared_of, x25519_shared_secret,
};
use crate::vec_to_array32;
use vstd::prelude::*;
use vstd::utf8::{encode_utf8, is_ascii_chars, is_ascii_chars_encode_utf8};

verus! {

/// An X25519 key pair held as plain bytes; the private half may be absent
/// before any key was drawn.
pub struct PrivatePublicKeyPair {
    pub private_key: Option<[u8; 32]>,
    pub public_key: [u8; 32],
}

/// Draws a fresh X25519 key pair from the operating system's randomness.
pub fn generate_private_public_key_pair() -> (r: PrivatePublicKeyPair)
    ensures
        (r.private_key matches Some(sk) && r.public_key@ == x25519_public_of(sk@)),
{
    let sk = gen_secret_key();
    let pk = x25519_public_key(&sk);
    PrivatePublicKeyPair { private_key: Some(sk), public_key: pk }
}

/// What the responder publishes of itself: its static public key under its
/// identity. Produced, not validated, by this core.
pub struct Certificate {
    pub public_key: [u8; 32],
    pub server_id: String,
}

/// The client's opening message: its ephemeral public key.
pub struct InitSessionMessage {
    pub client_ephemeral_public_key: [u8; 32],
}

impl InitSessionMessage {
    /// Reads the client key from raw bytes; wrong-length input yields the
    /// all-zero key.
    pub fn from(bytes: Vec<u8>) -> (r: Self)
        ensures
            bytes@.len() == 32 ==> r.client_ephemeral_public_key@ == bytes@,
            bytes@.len() != 32 ==> r.client_ephemeral_public_key@ == Seq::new(32, |i: int| 0u8),
    {
        InitSessionMessage { client_ephemeral_public_key: vec_to_array32(bytes) }
    }
}

/// The responder's answer: its ephemeral public key and the tag that proves
/// it holds the claimed static key.
pub struct InitSessionResponse {
    pub server_ephemeral_public_key: [u8; 32],
    pub t_hash: Vec<u8>,
}

/// The buffer hashed to derive the session keys:
/// `ecdh1 || ecdh2 || server_id || client_pub || server_eph_pub || "ntor"`.
pub open spec fn spec_ntor_buffer(
    ecdh1: Seq<u8>,
    ecdh2: Seq<u8>,
    server_id: Seq<char>,
    client_pub: Seq<u8>,
    server_eph_pub: Seq<u8>,
) -> Seq<u8> {
    ecdh1 + ecdh2 + encode_utf8(server_id) + client_pub + server_eph_pub + encode_utf8("ntor"@)
}

/// The SHA-256 digest over the handshake buffer, as a function of the two
/// private keys, the server identity and the client's public key.
pub open spec fn spec_ntor_digest(
    static_secret: Seq<u8>,
    eph_secret: Seq<u8>,
    server_id: Seq<char>,
    client_pub: Seq<u8>,
) -> Seq<u8> {
    sha256_of(
        spec_ntor_buffer(
            x25519_shared_of(eph_secret, client_pub),
            x25519_shared_of(static_secret, client_pub),
            server_id,
            client_pub,
            x25519_public_of(eph_secret),
        ),
    )
}

/// The second half of the digest: the session's 16-byte shared secret.
pub open spec fn spec_shared_secret(
    static_secret: Seq<u8>,
    eph_secret: Seq<u8>,
    server_id: Seq<char>,
    client_pub: Seq<u8>,
) -> Seq<u8> {
    spec_ntor_digest(static_secret, eph_secret, server_id, client_pub).subrange(16, 32)
}

/// The first half of the digest: the secret the tag authenticates.
pub open spec fn spec_secret_prime(
    static_secret: Seq<u8>,
    eph_secret: Seq<u8>,
    server_id: Seq<char>,
    client_pub: Seq<u8>,
) -> Seq<u8> {
    spec_ntor_digest(static_secret, eph_secret, server_id, client_pub).subrange(0, 16)
}

/// The HMAC key of the authentication tag:
/// `server_id || server_eph_pub || client_pub || "ntor" || "server"`.
pub open spec fn spec_hmac_key(
    server_id: Seq<char>,
    server_eph_pub: Seq<u8>,
    client_pub: Seq<u8>,
) -> Seq<u8> {
    encode_utf8(server_id) + server_eph_pub + client_pub + encode_utf8("ntor"@) + encode_utf8(
        "server"@,
    )
}

/// The authentication tag of the handshake.
pub open spec fn spec_auth_tag(
    static_secret: Seq<u8>,
    eph_secret: Seq<u8>,
    server_id: Seq<char>,
    client_pub: Seq<u8>,
) -> Seq<u8> {
    hmac_sha256_of(
        spec_hmac_key(server_id, x25519_public_of(eph_secret), client_pub),
        spec_secret_prime(static_secret, eph_secret, server_id, client_pub),
    )
}

/// The channel key: the 16-byte shared secret concatenated with itself to
/// fill 32 bytes. Kept for wire compatibility; the effective entropy stays
/// that of the 16-byte secret.
pub open spec fn spec_derived_key(shared: Seq<u8>) -> Seq<u8> {
    shared + shared
}

/// Derives the AES-256-GCM key from a session's shared secret by
/// self-concatenation.
pub fn derive_key(shared: &Vec<u8>) -> (r: Vec<u8>)
    ensures
        r@ == spec_derived_key(shared@),
{
    let mut key = shared.clone();
    let mut tail = shared.clone();
    key.append(&mut tail);
    key
}

/// The ntor responder: one engine instance backs exactly one session.
pub struct Server {
    pub static_key_pair: PrivatePublicKeyPair,
    pub ephemeral_key_pair: PrivatePublicKeyPair,
    pub server_id: String,
    pub shared_secret: Option<Vec<u8>>,
}

impl Server {
    /// A fresh engine under a random static key; no ephemeral key and no
    /// shared secret yet.
    pub fn new(server_id: String) -> (r: Server)
        ensures
            r.server_id == server_id,
            (r.shared_secret is None),
            (r.ephemeral_key_pair.private_key is None),
            r.ephemeral_key_pair.public_key@ == Seq::new(32, |i: int| 0u8),
            (r.static_key_pair.private_key matches Some(sk) && r.static_key_pair.public_key@
                == x25519_public_of(sk@)),
    {
        let r = Server {
            ephemeral_key_pair: PrivatePublicKeyPair {
                private_key: None,
                public_key: [0u8; 32],
            },
            server_id,
            shared_secret: None,
            static_key_pair: generate_private_public_key_pair(),
        };
        proof {
            assert(r.ephemeral_key_pair.public_key@ =~= Seq::new(32, |i: int| 0u8));
        }
        r
    }

    /// A fresh engine under the given 32-byte static secret.
    pub fn new_with_secret(server_id: String, secret: [u8; 32]) -> (r: Server)
        ensures
            r.server_id == server_id,
            (r.shared_secret is None),
            (r.ephemeral_key_pair.private_key is None),
            r.ephemeral_key_pair.public_key@ == Seq::new(32, |i: int| 0u8),
            r.static_key_pair.private_key == Some(secret),
            r.static_key_pair.public_key@ == x25519_public_of(secret@),
    {
        let public_key = x25519_public_key(&secret);
        let r = Server {
            ephemeral_key_pair: PrivatePublicKeyPair {
                private_key: None,
                public_key: [0u8; 32],
            },
            server_id,
            shared_secret: None,
            static_key_pair: PrivatePublicKeyPair { private_key: Some(secret), public_key },
        };
        proof {
            assert(r.ephemeral_key_pair.public_key@ =~= Seq::new(32, |i: int| 0u8));
        }
        r
    }

    /// The engine's static public key under its identity.
    pub fn get_certificate(&self) -> (r: Certificate)
        ensures
            r.public_key == self.static_key_pair.public_key,
            r.server_id@ == self.server_id@,
    {
        Certificate {
            public_key: self.static_key_pair.public_key,
            server_id: self.server_id.clone(),
        }
    }

    /// Responds to a client's opening message: draws a fresh ephemeral key
    /// pair (overwriting any earlier ephemeral state), derives the shared
    /// secret from the two X25519 agreements, stores it, and returns the
    /// ephemeral public key with the authentication tag.
    pub fn accept_init_session_request(&mut self, init_msg: &InitSessionMessage) -> (r:
        InitSessionResponse)
        requires
            (old(self).static_key_pair.private_key is Some),
        ensures
            final(self).server_id == old(self).server_id,
            final(self).static_key_pair == old(self).static_key_pair,
            (final(self).ephemeral_key_pair.private_key matches Some(esk) && {
                let ssk = old(self).static_key_pair.private_key.unwrap();
                let cpub = init_msg.client_ephemeral_public_key;
                &&& final(self).ephemeral_key_pair.public_key@ == x25519_public_of(esk@)
                &&& r.server_ephemeral_public_key == final(self).ephemeral_key_pair.public_key
                &&& (final(self).shared_secret matches Some(ss) && ss@ == spec_shared_secret(
                    ssk@,
                    esk@,
                    old(self).server_id@,
                    cpub@,
                ))
                &&& r.t_hash@ == spec_auth_tag(ssk@, esk@, old(self).server_id@, cpub@)
            }),
    {
        let client_pub = init_msg.client_ephemeral_public_key;
        self.ephemeral_key_pair = generate_private_public_key_pair();
        let eph_secret = match &self.ephemeral_key_pair.private_key {
            Some(sk) => *sk,
            None => {
                proof {
                    assert(false);
                }
                [0u8; 32]
            },
        };
        let static_secret = match &self.static_key_pair.private_key {
            Some(sk) => *sk,
            None => {
                proof {
                    assert(false);
                }
                [0u8; 32]
            },
        };
        let eph_pub = self.ephemeral_key_pair.public_key;
        let ecdh1 = x25519_shared_secret(&eph_secret, &client_pub);
        let ecdh2 = x25519_shared_secret(&static_secret, &client_pub);

        let mut buffer: Vec<u8> = Vec::new();
        buffer.extend_from_slice(ecdh1.as_slice());
        buffer.extend_from_slice(ecdh2.as_slice());
        buffer.extend_from_slice(self.server_id.as_str().as_bytes());
        buffer.extend_from_slice(client_pub.as_slice());
        buffer.extend_from_slice(eph_pub.as_slice());
        buffer.extend_from_slice("ntor".as_bytes());
        proof {
            assert(buffer@ =~= spec_ntor_buffer(
                x25519_shared_of(eph_secret@, client_pub@),
                x25519_shared_of(static_secret@, client_pub@),
                self.server_id@,
                client_pub@,
                x25519_public_of(eph_secret@),
            ));
        }
        let digest = sha256(&buffer);

        let mut secret_key_prime: Vec<u8> = Vec::new();
        let mut i: usize = 0;
        while i < 16
            invariant
                i <= 16,
                secret_key_prime@ == digest@.subrange(0, i as int),
            decreases 16 - i,
        {
            secret_key_prime.push(digest[i]);
            proof {
                assert(secret_key_prime@ =~= digest@.subrange(0, i + 1));
            }
            i += 1;
        }
        let mut secret_key: Vec<u8> = Vec::new();
        let mut j: usize = 16;
        while j < 32
            invariant
                16 <= j <= 32,
                secret_key@ == digest@.subrange(16, j as int),
            decreases 32 - j,
        {
            secret_key.push(digest[j]);
            proof {
                assert(secret_key@ =~= digest@.subrange(16, j + 1));
            }
            j += 1;
        }

        let mut hmac_key_buffer: Vec<u8> = Vec::new();
        hmac_key_buffer.extend_from_slice(self.server_id.as_str().as_bytes());
        hmac_key_buffer.extend_from_slice(eph_pub.as_slice());
        hmac_key_buffer.extend_from_slice(client_pub.as_slice());
        hmac_key_buffer.extend_from_slice("ntor".as_bytes());
        hmac_key_buffer.extend_from_slice("server".as_bytes());
        proof {
            assert(hmac_key_buffer@ =~= spec_hmac_key(
                self.server_id@,
                x25519_public_of(eph_secret@),
                client_pub@,
            ));
        }
        let output_hash = hmac_sha256(&hmac_key_buffer, &secret_key_prime);

        self.shared_secret = Some(secret_key);

        InitSessionResponse { server_ephemeral_public_key: eph_pub, t_hash: output_hash }
    }

    /// Seals a payload under the session's derived key with a fresh random
    /// nonce, appending the tag. Fails when no handshake has completed, and
    /// on a session whose secret cannot form a 32-byte key.
    pub fn encrypt(&self, data: Vec<u8>) -> (r: Result<([u8; 12], Vec<u8>), &'static str>)
        ensures
            match r {
                Ok(sealed) => (self.shared_secret matches Some(ss) && {
                    &&& sealed.1@.len() == data@.len() + 16
                    &&& aead_open_of(spec_derived_key(ss@), sealed.0@, sealed.1@) == Some(data@)
                }),
                Err(e) => {
                    ||| ((self.shared_secret is None) && e@ == "no encryption key found"@)
                    ||| (self.shared_secret matches Some(ss) && (ss@.len() != 16 || data@.len()
                        >= 0x1_0000_0000) && e@ == "encrypt failed"@)
                },
            },
    {
        match &self.shared_secret {
            Some(key) => {
                let encrypt_key = derive_key(key);
                match aead_seal(&encrypt_key, data) {
                    Some(sealed) => Ok(sealed),
                    None => {
                        proof {
                            reveal_strlit("encrypt failed");
                            reveal_strlit("no encryption key found");
                        }
                        Err("encrypt failed")
                    },
                }
            },
            None => {
                proof {
                    reveal_strlit("encrypt failed");
                    reveal_strlit("no encryption key found");
                }
                Err("no encryption key found")
            },
        }
    }

    /// Opens a sealed payload under the session's derived key; fails closed
    /// when the tag does not verify, releasing nothing.
    pub fn decrypt(&self, nonce: [u8; 12], data: Vec<u8>) -> (r: Result<Vec<u8>, &'static str>)
        ensures
            match r {
                Ok(pt) => (self.shared_secret matches Some(ss) && ss@.len() == 16 && aead_open_of(
                    spec_derived_key(ss@),
                    nonce@,
                    data@,
                ) == Some(pt@)),
                Err(e) => {
                    ||| ((self.shared_secret is None) && e@ == "no decryption key found"@)
                    ||| (self.shared_secret matches Some(ss) && ss@.len() != 16 && e@
                        == "decrypt failed"@)
                    ||| (self.shared_secret matches Some(ss) && aead_open_of(
                        spec_derived_key(ss@),
                        nonce@,
                        data@,
                    ) is None && e@ == "decrypt failed"@)
                },
            },
    {
        match &self.shared_secret {
            Some(key) => {
                let decrypt_key = derive_key(key);
                if decrypt_key.len() != 32 {
                    proof {
                        reveal_strlit("decrypt failed");
                        reveal_strlit("no decryption key found");
                    }
                    return Err("decrypt failed");
                }
                match aead_open(&decrypt_key, &nonce, data) {
                    Some(pt) => Ok(pt),
                    None => {
                        proof {
                            reveal_strlit("decrypt failed");
                            reveal_strlit("no decryption key found");
                        }
                        Err("decrypt failed")
                    },
                }
            },
            None => {
                proof {
                    reveal_strlit("decrypt failed");
                    reveal_strlit("no decryption key found");
                }
                Err("no decryption key found")
            },
        }
    }
}

/// Law: the channel round-trips. What `encrypt` ensures of its output --
/// that the sealed bytes open to the plaintext under the session key -- and
/// what `decrypt` ensures of its result -- that it returns exactly what the
/// sealed bytes open to -- force `decrypt(encrypt(m)) == m` on any session
/// with a derived key.
pub proof fn lemma_round_trip(key: Seq<u8>, nonce: Seq<u8>, sealed: Seq<u8>, m: Seq<u8>, d: Seq<u8>)
    requires
        aead_open_of(key, nonce, sealed) == Some(m),
        aead_open_of(key, nonce, sealed) == Some(d),
    ensures
        d == m,
{
}

/// Law: ephemeral freshness separates handshakes. Two responder runs for
/// the same client key and server identity that draw ephemeral keys with
/// different public halves hash different buffers, so nothing ties their
/// derived secrets together.
pub proof fn lemma_ephemeral_separation(
    ssk: Seq<u8>,
    e1: Seq<u8>,
    e2: Seq<u8>,
    id: Seq<char>,
    cpub: Seq<u8>,
)
    requires
        x25519_public_of(e1) != x25519_public_of(e2),
        x25519_public_of(e1).len() == 32,
        x25519_public_of(e2).len() == 32,
        x25519_shared_of(e1, cpub).len() == 32,
        x25519_shared_of(e2, cpub).len() == 32,
        x25519_shared_of(ssk, cpub).len() == 32,
        cpub.len() == 32,
    ensures
        spec_ntor_buffer(
            x25519_shared_of(e1, cpub),
            x25519_shared_of(ssk, cpub),
            id,
            cpub,
            x25519_public_of(e1),
        ) != spec_ntor_buffer(
            x25519_shared_of(e2, cpub),
            x25519_shared_of(ssk, cpub),
            id,
            cpub,
            x25519_public_of(e2),
        ),
{
    let b1 = spec_ntor_buffer(
        x25519_shared_of(e1, cpub),
        x25519_shared_of(ssk, cpub),
        id,
        cpub,
        x25519_public_of(e1),
    );
    let b2 = spec_ntor_buffer(
        x25519_shared_of(e2, cpub),
        x25519_shared_of(ssk, cpub),
        id,
        cpub,
        x25519_public_of(e2),
    );
    reveal_strlit("ntor");
    let n1 = b1.len();
    if b1 == b2 {
        let p1 = x25519_public_of(e1);
        let p2 = x25519_public_of(e2);
        assert(encode_utf8("ntor"@).len() == 4) by {
            assert("ntor"@.len() == 4);
            assert(is_ascii_chars("ntor"@));
            is_ascii_chars_encode_utf8("ntor"@);
        }
        assert(b1.subrange(n1 - 36, n1 - 4) =~= p1);
        assert(b2.subrange(n1 - 36, n1 - 4) =~= p2);
        assert(false);
    }
}

} // verus!
