use zk_verifier::action_type::ActionType;
use zk_verifier::errors::ErrorCode;
use zk_verifier::events::Event;
use zk_verifier::store::LedgerStore;

/// SHA-256 of the three bytes "abc": the standard test vector.
fn abc_digest() -> Vec<u8> {
    vec![
        0xba, 0x78, 0x16, 0xbf, 0x8f, 0x01, 0xcf, 0xea, 0x41, 0x41, 0x40, 0xde, 0x5d, 0xae,
        0x22, 0x23, 0xb0, 0x03, 0x61, 0xa3, 0x96, 0x17, 0x7a, 0x9c, 0xb4, 0x10, 0xff, 0x61,
        0xf2, 0x00, 0x15, 0xad,
    ]
}

#[test]
fn concrete_scenario() {
    let mut store = LedgerStore::new();
    let id = store
        .store_action(
            "agent-7".to_string(),
            3,
            b"combat-log-1",
            1_700_000_000,
            "authA".to_string(),
        )
        .unwrap();
    assert_eq!(id, 1);

    let digest_at_creation = store.read(1).unwrap().digest.clone();

    assert_eq!(
        store.verify_action(1, b"combat-log-1", "authA".to_string()),
        Ok(true)
    );
    assert_eq!(
        store.verify_action(1, b"combat-log-2", "authA".to_string()),
        Ok(false)
    );
    assert_eq!(
        store.update_metadata(1, "replay-verified".to_string(), "authA".to_string()),
        Ok(())
    );
    assert_eq!(
        store.update_metadata(1, "tampered".to_string(), "authB".to_string()),
        Err(ErrorCode::UnauthorizedMetadataUpdate)
    );

    let record = store.read(1).unwrap();
    assert_eq!(record.metadata, "replay-verified");
    assert_eq!(record.digest, digest_at_creation);
    assert_eq!(record.agent_id, "agent-7");
    assert_eq!(record.action_type, 3);
    assert_eq!(record.timestamp, 1_700_000_000);
    assert_eq!(record.authority, "authA");
}

#[test]
fn round_trip() {
    let mut store = LedgerStore::new();
    let id = store
        .store_action("a".to_string(), 0, b"payload", 1, "who".to_string())
        .unwrap();
    assert_eq!(
        store.verify_action(id, b"payload", "anyone".to_string()),
        Ok(true)
    );
}

#[test]
fn tamper_detection() {
    let mut store = LedgerStore::new();
    let id = store
        .store_action("a".to_string(), 1, b"payload-one", 7, "who".to_string())
        .unwrap();
    assert_eq!(
        store.verify_action(id, b"payload-two", "anyone".to_string()),
        Ok(false)
    );
}

#[test]
fn digest_survives_update_sequences() {
    let mut store = LedgerStore::new();
    let id = store
        .store_action("a".to_string(), 2, b"data", 9, "owner".to_string())
        .unwrap();
    let digest_at_creation = store.read(id).unwrap().digest.clone();

    assert_eq!(
        store.update_metadata(id, "first".to_string(), "owner".to_string()),
        Ok(())
    );
    assert_eq!(
        store.update_metadata(id, "second".to_string(), "intruder".to_string()),
        Err(ErrorCode::UnauthorizedMetadataUpdate)
    );
    assert_eq!(
        store.update_metadata(id, "third".to_string(), "owner".to_string()),
        Ok(())
    );

    let record = store.read(id).unwrap();
    assert_eq!(record.digest, digest_at_creation);
    assert_eq!(record.metadata, "third");
    assert!(store.verify_action(id, b"data", "owner".to_string()).unwrap());
}

#[test]
fn unauthorized_update_changes_nothing() {
    let mut store = LedgerStore::new();
    let id = store
        .store_action("a".to_string(), 4, b"data", 3, "owner".to_string())
        .unwrap();
    assert_eq!(
        store.update_metadata(id, "mine now".to_string(), "other".to_string()),
        Err(ErrorCode::UnauthorizedMetadataUpdate)
    );
    let record = store.read(id).unwrap();
    assert_eq!(record.metadata, "");
    assert_eq!(record.authority, "owner");
}

#[test]
fn validation_gating() {
    let mut store = LedgerStore::new();
    assert_eq!(
        store.store_action("".to_string(), 3, b"data", 5, "who".to_string()),
        Err(ErrorCode::InvalidAgentId)
    );
    assert_eq!(
        store.store_action("agent".to_string(), 3, b"", 5, "who".to_string()),
        Err(ErrorCode::EmptyActionData)
    );
    assert_eq!(
        store.store_action("agent".to_string(), 99, b"data", 5, "who".to_string()),
        Err(ErrorCode::InvalidActionType)
    );
    assert_eq!(
        store.store_action("agent".to_string(), 3, b"data", 0, "who".to_string()),
        Err(ErrorCode::InvalidTimestamp)
    );
    assert_eq!(
        store.store_action("agent".to_string(), 3, b"data", -4, "who".to_string()),
        Err(ErrorCode::InvalidTimestamp)
    );
    // Nothing was stored and nothing was emitted.
    assert_eq!(store.record_count(), 0);
    assert_eq!(store.events().len(), 0);
}

#[test]
fn agent_id_length_bound() {
    let mut store = LedgerStore::new();
    let at_bound = "a".repeat(64);
    let over_bound = "a".repeat(65);
    assert!(store
        .store_action(at_bound, 0, b"data", 1, "who".to_string())
        .is_ok());
    assert_eq!(
        store.store_action(over_bound, 0, b"data", 1, "who".to_string()),
        Err(ErrorCode::InvalidAgentId)
    );
}

#[test]
fn lookup_failure() {
    let mut store = LedgerStore::new();
    assert_eq!(
        store.verify_action(1, b"data", "who".to_string()),
        Err(ErrorCode::RecordNotFound)
    );
    assert_eq!(
        store.update_metadata(1, "meta".to_string(), "who".to_string()),
        Err(ErrorCode::RecordNotFound)
    );
    assert_eq!(store.read(1).unwrap_err(), ErrorCode::RecordNotFound);
    assert_eq!(
        store.verify_action(0, b"data", "who".to_string()),
        Err(ErrorCode::RecordNotFound)
    );
    assert_eq!(store.events().len(), 0);
}

#[test]
fn empty_payload_on_verify() {
    let mut store = LedgerStore::new();
    let id = store
        .store_action("a".to_string(), 5, b"data", 2, "who".to_string())
        .unwrap();
    assert_eq!(
        store.verify_action(id, b"", "who".to_string()),
        Err(ErrorCode::EmptyActionData)
    );
    // The empty-payload check comes before the lookup.
    assert_eq!(
        store.verify_action(99, b"", "who".to_string()),
        Err(ErrorCode::EmptyActionData)
    );
}

#[test]
fn stored_digest_is_sha256_of_payload() {
    let mut store = LedgerStore::new();
    let id = store
        .store_action("a".to_string(), 0, b"abc", 1, "who".to_string())
        .unwrap();
    assert_eq!(store.read(id).unwrap().digest, abc_digest());
}

#[test]
fn identifiers_are_sequential_and_stable() {
    let mut store = LedgerStore::new();
    let first = store
        .store_action("a".to_string(), 0, b"one", 1, "who".to_string())
        .unwrap();
    let second = store
        .store_action("b".to_string(), 1, b"two", 2, "who".to_string())
        .unwrap();
    assert_eq!(first, 1);
    assert_eq!(second, 2);
    assert!(store.verify_action(1, b"one", "who".to_string()).unwrap());
    assert!(store.verify_action(2, b"two", "who".to_string()).unwrap());
    assert!(!store.verify_action(1, b"two", "who".to_string()).unwrap());
    assert_eq!(store.record_count(), 2);
}

#[test]
fn one_event_per_operation_in_order() {
    let mut store = LedgerStore::new();
    let id = store
        .store_action("agent".to_string(), 3, b"data", 11, "owner".to_string())
        .unwrap();
    store.verify_action(id, b"other", "checker".to_string()).unwrap();
    store
        .update_metadata(id, "note".to_string(), "owner".to_string())
        .unwrap();
    // A failed operation emits nothing.
    let _ = store.update_metadata(id, "no".to_string(), "intruder".to_string());
    let _ = store.store_action("".to_string(), 3, b"data", 11, "owner".to_string());

    let events = store.events();
    assert_eq!(events.len(), 3);
    match &events[0] {
        Event::Recorded(e) => {
            assert_eq!(e.record_id, 1);
            assert_eq!(e.agent_id, "agent");
            assert_eq!(e.action_type, 3);
            assert_eq!(e.timestamp, 11);
            assert_eq!(e.authority, "owner");
        }
        _ => panic!("expected a Recorded event"),
    }
    match &events[1] {
        Event::Verified(e) => {
            assert_eq!(e.record_id, 1);
            assert!(!e.verified);
            assert_eq!(e.verifier, "checker");
        }
        _ => panic!("expected a Verified event"),
    }
    match &events[2] {
        Event::MetadataUpdated(e) => {
            assert_eq!(e.record_id, 1);
            assert_eq!(e.authority, "owner");
        }
        _ => panic!("expected a MetadataUpdated event"),
    }
}

#[test]
fn action_type_codes() {
    assert_eq!(ActionType::from_u8(0), Some(ActionType::Movement));
    assert_eq!(ActionType::from_u8(1), Some(ActionType::Interaction));
    assert_eq!(ActionType::from_u8(2), Some(ActionType::Crafting));
    assert_eq!(ActionType::from_u8(3), Some(ActionType::Combat));
    assert_eq!(ActionType::from_u8(4), Some(ActionType::Trading));
    assert_eq!(ActionType::from_u8(5), Some(ActionType::Quest));
    assert_eq!(ActionType::from_u8(6), None);
    assert_eq!(ActionType::from_u8(255), None);
    for code in 0u8..6u8 {
        let kind = ActionType::from_u8(code).unwrap();
        assert_eq!(kind.as_u8(), code);
    }
}

#[test]
fn error_messages() {
    assert_eq!(ErrorCode::InvalidAgentId.message(), "Agent ID cannot be empty");
    assert_eq!(ErrorCode::EmptyActionData.message(), "Action data cannot be empty");
    assert_eq!(ErrorCode::InvalidActionType.message(), "Invalid action type");
    assert_eq!(ErrorCode::InvalidTimestamp.message(), "Invalid timestamp");
    assert_eq!(
        ErrorCode::UnauthorizedMetadataUpdate.message(),
        "Only the original authority can update metadata"
    );
    assert_eq!(ErrorCode::RecordNotFound.message(), "Record not found");
}
