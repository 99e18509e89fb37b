use base64::Engine;
use policy_agent::{
    ActorDirectory, AuthData, EntityId, MyContextData, UserKeyPairAgent, ValidationError,
};

fn id_bytes(seed: u8) -> Vec<u8> {
    vec![seed; 16]
}

fn entity_id(seed: u8) -> EntityId {
    EntityId::from_bytes(id_bytes(seed))
}

fn client_with_key(seed: u8) -> UserKeyPairAgent {
    UserKeyPairAgent::new_client(vec![seed; 32])
}

fn initialized_server() -> UserKeyPairAgent {
    let mut server = UserKeyPairAgent::new_server();
    server.initialize_root_context();
    server
}

/// A directory holding, for the actor with id seed `id_seed`, the public
/// key of the client whose secret key is `[key_seed; 32]`.
fn directory_for(id_seed: u8, key_seed: u8) -> ActorDirectory {
    let client = client_with_key(key_seed);
    let pk = client.client_public_key();
    let record = base64::engine::general_purpose::STANDARD.encode(&pk);
    let mut directory = ActorDirectory::new();
    directory.register(entity_id(id_seed), record);
    directory
}

fn signed_token(key_seed: u8, id_seed: u8, request: &[u8]) -> AuthData {
    let client = client_with_key(key_seed);
    let cdata = vec![MyContextData::User(entity_id(id_seed))];
    let mut tokens = client.sign_request(&cdata, &request.to_vec());
    assert_eq!(tokens.len(), 1);
    tokens.remove(0)
}

#[test]
fn round_trip_authenticated() {
    let request = b"fetch rooms where name = 'General'".to_vec();
    let token = signed_token(3, 7, &request);
    assert_eq!(token.0.len(), 80);
    let server = initialized_server();
    let directory = directory_for(7, 3);
    let contexts = server
        .check_request(&vec![token], &request, &directory)
        .expect("round trip must authenticate");
    assert_eq!(contexts, vec![MyContextData::User(entity_id(7))]);
}

#[test]
fn tamper_detection_single_bit_flips() {
    let request = b"abcdef".to_vec();
    let token = signed_token(3, 7, &request);
    let server = initialized_server();
    let directory = directory_for(7, 3);
    for byte in 0..request.len() {
        for bit in 0..8 {
            let mut tampered = request.clone();
            tampered[byte] ^= 1u8 << bit;
            let result = server.check_request(&vec![AuthData(token.0.clone())], &tampered, &directory);
            assert_eq!(result, Err(ValidationError::SignatureInvalid));
        }
    }
}

#[test]
fn empty_token_yields_anonymous() {
    let server = initialized_server();
    let directory = ActorDirectory::new();
    let contexts = server
        .check_request(&vec![AuthData(vec![])], &b"r".to_vec(), &directory)
        .expect("empty token is anonymous");
    assert_eq!(contexts, vec![MyContextData::Anonymous]);
}

#[test]
fn short_tokens_rejected() {
    let server = initialized_server();
    let directory = ActorDirectory::new();
    for len in [1usize, 40, 79] {
        let result = server.check_request(&vec![AuthData(vec![9; len])], &b"r".to_vec(), &directory);
        assert_eq!(
            result,
            Err(ValidationError::AuthDataTooShort { got: len, expected: 80 })
        );
    }
}

#[test]
fn trailing_bytes_beyond_80_are_ignored() {
    let request = b"request".to_vec();
    let token = signed_token(3, 7, &request);
    let mut long = token.0.clone();
    long.extend_from_slice(&[0xAB; 13]);
    let server = initialized_server();
    let directory = directory_for(7, 3);
    let contexts = server
        .check_request(&vec![AuthData(long)], &request, &directory)
        .expect("trailing bytes are ignored");
    assert_eq!(contexts, vec![MyContextData::User(entity_id(7))]);
}

#[test]
fn unknown_actor_rejected() {
    let request = b"request".to_vec();
    let token = signed_token(3, 7, &request);
    let server = initialized_server();
    let directory = directory_for(8, 3);
    let result = server.check_request(&vec![token], &request, &directory);
    assert_eq!(result, Err(ValidationError::ActorNotFound(entity_id(7))));
}

#[test]
fn invalid_public_key_encoding_rejected() {
    let request = b"request".to_vec();
    let token = signed_token(3, 7, &request);
    let server = initialized_server();
    let mut directory = ActorDirectory::new();
    directory.register(entity_id(7), String::from("!!! not base64 !!!"));
    let result = server.check_request(&vec![token], &request, &directory);
    assert_eq!(result, Err(ValidationError::InvalidPublicKeyEncoding));
}

#[test]
fn invalid_public_key_length_rejected() {
    let request = b"request".to_vec();
    let token = signed_token(3, 7, &request);
    let server = initialized_server();
    let mut directory = ActorDirectory::new();
    let short_key = base64::engine::general_purpose::STANDARD.encode([5u8; 16]);
    directory.register(entity_id(7), short_key);
    let result = server.check_request(&vec![token], &request, &directory);
    assert_eq!(result, Err(ValidationError::InvalidPublicKeyLength));
}

#[test]
fn invalid_public_key_rejected() {
    let mut bad_key: Option<[u8; 32]> = None;
    for c in 0..=255u8 {
        let candidate = [c; 32];
        if ed25519_dalek::VerifyingKey::from_bytes(&candidate).is_err() {
            bad_key = Some(candidate);
            break;
        }
    }
    let bad_key = bad_key.expect("some constant 32-byte string is not a curve point");
    let request = b"request".to_vec();
    let token = signed_token(3, 7, &request);
    let server = initialized_server();
    let mut directory = ActorDirectory::new();
    directory.register(
        entity_id(7),
        base64::engine::general_purpose::STANDARD.encode(bad_key),
    );
    let result = server.check_request(&vec![token], &request, &directory);
    assert_eq!(result, Err(ValidationError::InvalidPublicKey));
}

#[test]
fn signature_under_wrong_key_rejected() {
    let request = b"request".to_vec();
    let token = signed_token(3, 7, &request);
    let server = initialized_server();
    // The directory holds actor 7 with the public key of a different client.
    let directory = directory_for(7, 4);
    let result = server.check_request(&vec![token], &request, &directory);
    assert_eq!(result, Err(ValidationError::SignatureInvalid));
}

#[test]
fn fail_fast_reports_first_failure() {
    let server = initialized_server();
    let directory = ActorDirectory::new();
    let auth = vec![
        AuthData(vec![]),
        AuthData(vec![1; 3]),
        AuthData(vec![2; 5]),
    ];
    let result = server.check_request(&auth, &b"r".to_vec(), &directory);
    assert_eq!(
        result,
        Err(ValidationError::AuthDataTooShort { got: 3, expected: 80 })
    );
}

#[test]
fn check_request_preserves_token_order() {
    let request = b"request".to_vec();
    let client = client_with_key(3);
    let cdata = vec![
        MyContextData::Anonymous,
        MyContextData::User(entity_id(7)),
    ];
    let tokens = client.sign_request(&cdata, &request);
    assert_eq!(tokens.len(), 2);
    assert!(tokens[0].0.is_empty());
    assert_eq!(tokens[1].0.len(), 80);
    assert_eq!(&tokens[1].0[..16], id_bytes(7).as_slice());

    let server = initialized_server();
    let directory = directory_for(7, 3);
    let contexts = server
        .check_request(&tokens, &request, &directory)
        .expect("both tokens verify");
    assert_eq!(
        contexts,
        vec![MyContextData::Anonymous, MyContextData::User(entity_id(7))]
    );
}

#[test]
fn check_request_empty_auth_is_ok_and_empty() {
    let server = initialized_server();
    let directory = ActorDirectory::new();
    let contexts = server
        .check_request(&vec![], &b"r".to_vec(), &directory)
        .expect("no tokens, no failures");
    assert!(contexts.is_empty());
}

#[test]
fn sign_request_anonymous_emits_empty_token() {
    let client = client_with_key(3);
    let tokens = client.sign_request(&vec![MyContextData::Anonymous], &b"r".to_vec());
    assert_eq!(tokens, vec![AuthData(vec![])]);
}

#[test]
fn sign_request_on_server_emits_single_empty_token() {
    let server = initialized_server();
    let tokens = server.sign_request(&vec![], &b"r".to_vec());
    assert_eq!(tokens, vec![AuthData(vec![])]);
}

#[test]
fn repeated_initialization_is_idempotent() {
    let mut server = UserKeyPairAgent::new_server();
    server.initialize_root_context();
    server.initialize_root_context();
    server.initialize_root_context();

    let request = b"request".to_vec();
    let token = signed_token(3, 7, &request);
    let directory = directory_for(7, 3);
    let contexts = server
        .check_request(&vec![token], &request, &directory)
        .expect("an agent initialized several times still verifies");
    assert_eq!(contexts, vec![MyContextData::User(entity_id(7))]);

    let mut client = client_with_key(3);
    client.initialize_root_context();
    let tokens = client.sign_request(&vec![MyContextData::Anonymous], &request);
    assert_eq!(tokens, vec![AuthData(vec![])]);
}

#[test]
fn client_public_key_matches_signing_key() {
    let client = client_with_key(9);
    let expected = ed25519_dalek::SigningKey::from_bytes(&[9; 32])
        .verifying_key()
        .to_bytes()
        .to_vec();
    assert_eq!(client.client_public_key(), expected);
}

#[test]
fn key_rotation_takes_effect_on_next_lookup() {
    let request = b"request".to_vec();
    let token = signed_token(4, 7, &request);
    let server = initialized_server();
    // Before rotation the directory still holds the old key: rejected.
    let old_directory = directory_for(7, 3);
    assert_eq!(
        server.check_request(&vec![AuthData(token.0.clone())], &request, &old_directory),
        Err(ValidationError::SignatureInvalid)
    );
    // The verifier reads the current record, so the rotated key works.
    let new_directory = directory_for(7, 4);
    let contexts = server
        .check_request(&vec![token], &request, &new_directory)
        .expect("rotated key verifies");
    assert_eq!(contexts, vec![MyContextData::User(entity_id(7))]);
}
