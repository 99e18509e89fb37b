use base64::Engine;
use policy_agent::{
    AccessDenied, EntityId, EntityRecord, Event, Message, MyContextData, Predicate, Room, User,
    UserKeyPairAgent,
};

fn entity_id(seed: u8) -> EntityId {
    EntityId::from_bytes(vec![seed; 16])
}

fn actor_reference(seed: u8) -> String {
    base64::engine::general_purpose::STANDARD.encode([seed; 16])
}

fn record(collection: &str, user: Option<String>) -> EntityRecord {
    EntityRecord { collection: String::from(collection), user }
}

fn event() -> Event {
    Event { payload: vec![] }
}

fn agent() -> UserKeyPairAgent {
    UserKeyPairAgent::new_server()
}

fn check(
    cdata: &MyContextData,
    entity_after: &EntityRecord,
) -> Result<(), AccessDenied> {
    let before = record("none", None);
    agent()
        .check_event(cdata, &before, entity_after, &event())
        .map(|attestation| assert!(attestation.is_none()))
}

#[test]
fn anonymous_may_create_user_entities() {
    for tag in ["user", "User", "USER", "uSeR"] {
        let result = check(&MyContextData::Anonymous, &record(tag, None));
        assert_eq!(result, Ok(()));
    }
}

#[test]
fn anonymous_denied_outside_user_collection() {
    for tag in ["room", "message", "account", ""] {
        let result = check(&MyContextData::Anonymous, &record(tag, None));
        assert_eq!(result, Err(AccessDenied::AnonymousCreateOnly));
    }
}

#[test]
fn ownership_mismatch_denied() {
    let ctx = MyContextData::User(entity_id(1));
    let entity = record("message", Some(actor_reference(2)));
    assert_eq!(check(&ctx, &entity), Err(AccessDenied::OwnershipMismatch));
}

#[test]
fn ownership_match_allowed() {
    let ctx = MyContextData::User(entity_id(1));
    let entity = record("Message", Some(actor_reference(1)));
    assert_eq!(check(&ctx, &entity), Ok(()));
}

#[test]
fn invalid_actor_reference_denied() {
    let ctx = MyContextData::User(entity_id(1));
    for reference in [
        String::from("*** not base64 ***"),
        base64::engine::general_purpose::STANDARD.encode([9u8; 10]),
    ] {
        let entity = record("message", Some(reference));
        assert_eq!(check(&ctx, &entity), Err(AccessDenied::InvalidActorReference));
    }
}

#[test]
fn message_without_user_field_allowed() {
    let ctx = MyContextData::User(entity_id(1));
    assert_eq!(check(&ctx, &record("message", None)), Ok(()));
}

#[test]
fn authenticated_open_policy_on_other_collections() {
    let ctx = MyContextData::User(entity_id(1));
    assert_eq!(check(&ctx, &record("room", None)), Ok(()));
    assert_eq!(check(&ctx, &record("room", Some(actor_reference(2)))), Ok(()));
}

#[test]
fn system_bypasses_ownership_check() {
    let entity = record("message", Some(actor_reference(2)));
    assert_eq!(check(&MyContextData::Root, &entity), Ok(()));
    assert_eq!(check(&MyContextData::Root, &record("anything", None)), Ok(()));
}

#[test]
fn denial_reasons_are_readable() {
    assert_eq!(
        AccessDenied::AnonymousCreateOnly.reason(),
        "anonymous may only create identity records"
    );
    assert_eq!(AccessDenied::InvalidActorReference.reason(), "invalid actor reference");
    assert_eq!(AccessDenied::OwnershipMismatch.reason(), "ownership mismatch");
}

#[test]
fn context_predicates() {
    let authenticated = MyContextData::User(entity_id(5));
    assert!(authenticated.is_authenticated());
    assert!(!authenticated.is_system());
    assert!(!authenticated.is_anonymous());
    assert_eq!(authenticated.actor_id(), &entity_id(5));
    assert!(MyContextData::Root.is_system());
    assert!(MyContextData::Anonymous.is_anonymous());
}

#[test]
fn entity_ids_compare_by_bytes() {
    let a = entity_id(1);
    assert!(a.same_id(&entity_id(1)));
    assert!(!a.same_id(&entity_id(2)));
    assert_eq!(a.as_bytes(), &vec![1u8; 16]);
    assert_eq!(a.duplicate(), a);
}

#[test]
fn model_records_expose_decider_view() {
    let user = User { display_name: String::from("Ada"), pub_key: String::from("key") };
    let user_record = user.entity_record();
    assert_eq!(user_record.collection, "user");
    assert_eq!(user_record.user, None);

    let room = Room { name: String::from("General") };
    assert_eq!(room.entity_record().collection, "room");

    let message = Message {
        user: actor_reference(1),
        room: String::from("General"),
        text: String::from("hello"),
        timestamp: 1700000000,
        deleted: false,
    };
    let message_record = message.entity_record();
    assert_eq!(message_record.collection, "message");
    assert_eq!(message_record.user, Some(actor_reference(1)));
}

#[test]
fn passthrough_checkpoints_allow() {
    let agent = agent();
    let contexts = vec![MyContextData::Anonymous];
    let collection = String::from("room");
    let state = policy_agent::EntityState { payload: vec![1] };
    let assertion = policy_agent::CausalAssertion { payload: vec![2] };
    let peer = entity_id(9);

    assert_eq!(agent.validate_received_event(&peer, &event()), Ok(()));
    assert_eq!(agent.attest_state(&state), None);
    assert_eq!(agent.validate_received_state(&peer, &state), Ok(()));
    assert_eq!(agent.can_access_collection(&contexts, &collection), Ok(()));
    assert_eq!(agent.check_read(&contexts, &peer, &collection, &state), Ok(()));
    assert_eq!(agent.check_read_event(&contexts, &event()), Ok(()));
    assert_eq!(
        agent.check_write(&MyContextData::Root, &record("room", None), Some(&event())),
        Ok(())
    );
    assert_eq!(agent.validate_causal_assertion(&peer, &assertion), Ok(()));

    let predicate = Predicate { expr: String::from("name = 'General'") };
    assert_eq!(
        agent.filter_predicate(&contexts, &collection, predicate.clone()),
        Ok(predicate)
    );
}

#[test]
fn caseless_comparison() {
    assert!(policy_agent::str_caseless_eq("User", "uSER"));
    assert!(policy_agent::str_caseless_eq("", ""));
    assert!(!policy_agent::str_caseless_eq("user ", "user"));
    assert!(!policy_agent::str_caseless_eq("users", "user"));
    assert!(policy_agent::str_caseless_eq("caf\u{e9}", "CAF\u{e9}"));
    assert!(!policy_agent::str_caseless_eq("caf\u{e9}", "cafe"));
}
