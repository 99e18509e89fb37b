//! The canonical request encoder is a collaborator: the node serializes a
//! request to bytes the same way on the signing and the verifying side.
//! These tests exercise the library through such encoded bytes.

use base64::Engine;
use policy_agent::{ActorDirectory, EntityId, MyContextData, UserKeyPairAgent};
use serde_json::Value;

fn request_value() -> Value {
    let mut body = serde_json::Map::new();
    body.insert(String::from("op"), Value::String(String::from("create")));
    body.insert(String::from("collection"), Value::String(String::from("message")));
    body.insert(String::from("text"), Value::String(String::from("hello")));
    Value::Object(body)
}

#[test]
fn canonical_encoding_is_deterministic() {
    let a = serde_json::to_vec(&request_value()).expect("encoding succeeds");
    let b = serde_json::to_vec(&request_value()).expect("encoding succeeds");
    assert_eq!(a, b);
}

#[test]
fn encoded_request_round_trips_through_signature() {
    let request_bytes = serde_json::to_vec(&request_value()).expect("encoding succeeds");

    let client = UserKeyPairAgent::new_client(vec![42; 32]);
    let actor = EntityId::from_bytes(vec![6; 16]);
    let tokens = client.sign_request(
        &vec![MyContextData::User(actor)],
        &request_bytes,
    );

    let mut server = UserKeyPairAgent::new_server();
    server.initialize_root_context();
    let mut directory = ActorDirectory::new();
    directory.register(
        EntityId::from_bytes(vec![6; 16]),
        base64::engine::general_purpose::STANDARD.encode(client.client_public_key()),
    );

    let contexts = server
        .check_request(&tokens, &request_bytes, &directory)
        .expect("the re-encoded request matches the signed bytes");
    assert_eq!(contexts, vec![MyContextData::User(EntityId::from_bytes(vec![6; 16]))]);
}
