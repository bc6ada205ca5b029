//! The handshake engine, the secure channel codec and the bearer tokens,
//! exercised with the real outside crates linked, including a full
//! client-side recomputation of the ntor derivation.
use hmac::Mac;
use sha2::Digest;
use wgp::jwt::{create_jwt_token, verify_jwt_token, AuthError};
use wgp::ntor::{derive_key, generate_private_public_key_pair, InitSessionMessage, Server};

fn test_server() -> Server {
    Server::new_with_secret("server1".to_string(), [7u8; 32])
}

fn client_init(server: &mut Server, client_secret: [u8; 32]) -> ([u8; 32], wgp::ntor::InitSessionResponse) {
    let client_public = x25519_dalek::PublicKey::from(&x25519_dalek::StaticSecret::from(
        client_secret,
    ))
    .to_bytes();
    let msg = InitSessionMessage::from(client_public.to_vec());
    let response = server.accept_init_session_request(&msg);
    (client_public, response)
}

#[test]
fn round_trip_plain_message() {
    let mut server = test_server();
    client_init(&mut server, [3u8; 32]);
    let message = b"attack at dawn".to_vec();
    let (nonce, sealed) = server.encrypt(message.clone()).unwrap();
    let opened = server.decrypt(nonce, sealed).unwrap();
    assert_eq!(opened, message);
}

#[test]
fn round_trip_empty_message() {
    let mut server = test_server();
    client_init(&mut server, [3u8; 32]);
    let (nonce, sealed) = server.encrypt(Vec::new()).unwrap();
    assert_eq!(sealed.len(), 16);
    let opened = server.decrypt(nonce, sealed).unwrap();
    assert_eq!(opened, Vec::<u8>::new());
}

#[test]
fn round_trip_large_message() {
    let mut server = test_server();
    client_init(&mut server, [9u8; 32]);
    let message: Vec<u8> = (0..10_000u32).map(|i| (i % 251) as u8).collect();
    let (nonce, sealed) = server.encrypt(message.clone()).unwrap();
    assert_eq!(sealed.len(), message.len() + 16);
    let opened = server.decrypt(nonce, sealed).unwrap();
    assert_eq!(opened, message);
}

#[test]
fn tamper_detection_every_bit() {
    let mut server = test_server();
    client_init(&mut server, [5u8; 32]);
    let message = b"secret".to_vec();
    let (nonce, sealed) = server.encrypt(message.clone()).unwrap();
    for byte in 0..sealed.len() {
        for bit in 0..8 {
            let mut corrupted = sealed.clone();
            corrupted[byte] ^= 1u8 << bit;
            assert!(server.decrypt(nonce, corrupted).is_err());
        }
    }
    // the untouched ciphertext still opens
    assert_eq!(server.decrypt(nonce, sealed).unwrap(), message);
}

#[test]
fn tampered_nonce_fails() {
    let mut server = test_server();
    client_init(&mut server, [5u8; 32]);
    let (mut nonce, sealed) = server.encrypt(b"secret".to_vec()).unwrap();
    nonce[0] ^= 1;
    assert!(server.decrypt(nonce, sealed).is_err());
}

#[test]
fn encrypt_without_handshake_fails() {
    let server = test_server();
    assert!(server.encrypt(b"data".to_vec()).is_err());
    assert!(server.decrypt([0u8; 12], b"data".to_vec()).is_err());
}

#[test]
fn handshake_fresh_ephemerals_give_fresh_secrets() {
    // two independent responders, same client key
    let mut s1 = test_server();
    let mut s2 = test_server();
    let (_, r1) = client_init(&mut s1, [3u8; 32]);
    let (_, r2) = client_init(&mut s2, [3u8; 32]);
    assert_ne!(
        r1.server_ephemeral_public_key, r2.server_ephemeral_public_key,
        "ephemeral keys must be fresh"
    );
    assert_ne!(s1.shared_secret, s2.shared_secret);
}

#[test]
fn handshake_twice_overwrites_ephemeral_state() {
    let mut server = test_server();
    let (_, first) = client_init(&mut server, [3u8; 32]);
    let first_secret = server.shared_secret.clone();
    let (_, second) = client_init(&mut server, [3u8; 32]);
    assert_ne!(
        first.server_ephemeral_public_key,
        second.server_ephemeral_public_key
    );
    assert_eq!(
        server.ephemeral_key_pair.public_key,
        second.server_ephemeral_public_key
    );
    assert_ne!(server.shared_secret, first_secret);
}

#[test]
fn client_side_derivation_matches_server() {
    // Run the client half of the ntor exchange with the outside crates
    // directly and check both sides agree on the secret and the tag.
    let server_id = "server1";
    let static_secret = [7u8; 32];
    let mut server = Server::new_with_secret(server_id.to_string(), static_secret);
    let server_static_public =
        x25519_dalek::PublicKey::from(&x25519_dalek::StaticSecret::from(static_secret));

    let client_secret = x25519_dalek::StaticSecret::from([42u8; 32]);
    let client_public = x25519_dalek::PublicKey::from(&client_secret);
    let msg = InitSessionMessage::from(client_public.to_bytes().to_vec());
    let response = server.accept_init_session_request(&msg);

    let server_eph_public = x25519_dalek::PublicKey::from(response.server_ephemeral_public_key);
    let ecdh1 = client_secret.diffie_hellman(&server_eph_public);
    let ecdh2 = client_secret.diffie_hellman(&server_static_public);

    let mut buffer: Vec<u8> = Vec::new();
    buffer.extend_from_slice(ecdh1.as_bytes());
    buffer.extend_from_slice(ecdh2.as_bytes());
    buffer.extend_from_slice(server_id.as_bytes());
    buffer.extend_from_slice(client_public.as_bytes());
    buffer.extend_from_slice(response.server_ephemeral_public_key.as_slice());
    buffer.extend_from_slice(b"ntor");
    let digest = sha2::Sha256::digest(&buffer);

    assert_eq!(
        server.shared_secret.as_ref().unwrap().as_slice(),
        &digest[16..32],
        "client and server disagree on the shared secret"
    );

    let mut hmac_key: Vec<u8> = Vec::new();
    hmac_key.extend_from_slice(server_id.as_bytes());
    hmac_key.extend_from_slice(response.server_ephemeral_public_key.as_slice());
    hmac_key.extend_from_slice(client_public.as_bytes());
    hmac_key.extend_from_slice(b"ntor");
    hmac_key.extend_from_slice(b"server");
    let mut mac = hmac::Hmac::<sha2::Sha256>::new_from_slice(&hmac_key).unwrap();
    mac.update(&digest[0..16]);
    let tag = mac.finalize().into_bytes().to_vec();
    assert_eq!(response.t_hash, tag, "authentication tag mismatch");
}

#[test]
fn derive_key_doubles_the_secret() {
    let secret = vec![1u8, 2, 3];
    assert_eq!(derive_key(&secret), vec![1u8, 2, 3, 1, 2, 3]);
}

#[test]
fn generated_key_pair_is_consistent() {
    let pair = generate_private_public_key_pair();
    let sk = pair.private_key.unwrap();
    let expected = x25519_dalek::PublicKey::from(&x25519_dalek::StaticSecret::from(sk));
    assert_eq!(pair.public_key, expected.to_bytes());
}

#[test]
fn certificate_carries_static_key_and_identity() {
    let server = test_server();
    let cert = server.get_certificate();
    assert_eq!(cert.server_id, "server1");
    assert_eq!(
        cert.public_key,
        x25519_dalek::PublicKey::from(&x25519_dalek::StaticSecret::from([7u8; 32])).to_bytes()
    );
}

const JWT_SECRET: [u8; 32] = [11u8; 32];

#[test]
fn jwt_issue_then_verify_returns_user() {
    let token = create_jwt_token("alice".to_string(), JWT_SECRET, 1_000_000);
    let claims = verify_jwt_token(&token, JWT_SECRET, 1_000_000).unwrap();
    assert_eq!(claims.get_username(), "alice");
}

#[test]
fn jwt_valid_until_expiry() {
    let token = create_jwt_token("alice".to_string(), JWT_SECRET, 1_000_000);
    // one second before expiry it still verifies
    assert!(verify_jwt_token(&token, JWT_SECRET, 1_000_000 + 86_399).is_ok());
    // at expiry it is expired
    assert_eq!(
        verify_jwt_token(&token, JWT_SECRET, 1_000_000 + 86_400).unwrap_err(),
        AuthError::Expired
    );
}

#[test]
fn jwt_wrong_secret_is_invalid() {
    let token = create_jwt_token("alice".to_string(), JWT_SECRET, 1_000_000);
    let other = [12u8; 32];
    assert_eq!(
        verify_jwt_token(&token, other, 1_000_000).unwrap_err(),
        AuthError::InvalidSignatureOrFormat
    );
}

#[test]
fn jwt_garbage_is_invalid() {
    assert_eq!(
        verify_jwt_token(&"not.a.token".to_string(), JWT_SECRET, 0).unwrap_err(),
        AuthError::InvalidSignatureOrFormat
    );
    assert_eq!(
        verify_jwt_token(&String::new(), JWT_SECRET, 0).unwrap_err(),
        AuthError::InvalidSignatureOrFormat
    );
}

#[test]
fn jwt_decodes_with_jsonwebtoken_directly() {
    let token = create_jwt_token("bob".to_string(), JWT_SECRET, 2_000_000);
    let mut validation = jsonwebtoken::Validation::default();
    validation.validate_exp = false;
    let data = jsonwebtoken::decode::<serde_json::Value>(
        &token,
        &jsonwebtoken::DecodingKey::from_secret(&JWT_SECRET),
        &validation,
    )
    .unwrap();
    assert_eq!(data.claims.get("sub").unwrap().as_str().unwrap(), "bob");
    assert_eq!(
        data.claims.get("exp").unwrap().as_u64().unwrap(),
        2_000_000 + 86_400
    );
}
