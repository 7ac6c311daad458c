use spaced::clock::Timestamp;
use spaced::database::DatabaseTrait;
use spaced::error::FederationError;
use spaced::memory::MemoryDatabase;
use spaced::models::DbUser;
use spaced::person::{Person, PersonType, PublicKey};
use spaced::resolver::{dereference_fetched, dereference_in_memory};

fn carol() -> DbUser {
    DbUser {
        name: "carol".to_string(),
        display_name: "Carol".to_string(),
        password_hash: None,
        email: None,
        federation_id: "https://node/carol".to_string(),
        inbox: "https://node/carol/inbox".to_string(),
        outbox: "https://node/carol/outbox".to_string(),
        local: true,
        public_key: "CAROLKEY".to_string(),
        private_key: Some("CAROLSECRET".to_string()),
        last_refreshed_at: Timestamp { secs: 1_700_000_000, nanos: 0 },
        id: "https://node/carol".to_string(),
        idx: 0,
    }
}

fn document(id: &str, label: &str) -> Person {
    Person {
        id: id.to_string(),
        kind: PersonType::Person,
        preferred_username: label.to_string(),
        name: "dave".to_string(),
        inbox: format!("{}/inbox", id),
        outbox: format!("{}/outbox", id),
        public_key: PublicKey::new(id.to_string(), "DAVEKEY".to_string()),
    }
}

#[test]
fn known_actor_is_answered_from_the_store() {
    let mut db = MemoryDatabase::new();
    db.from_json(&carol()).unwrap();
    let at = Timestamp { secs: 5, nanos: 0 };

    let found = dereference_in_memory("https://node/carol", None, at, &mut db).unwrap();
    assert_eq!(found, carol());

    let other = document("https://node/carol", "Impostor");
    let again = dereference_in_memory("https://node/carol", Some(other), at, &mut db).unwrap();
    assert_eq!(again, carol());
    assert_eq!(db.len(), 1);
    assert_eq!(db.read_from_id("https://node/carol").unwrap().display_name, "Carol");
}

#[test]
fn unknown_actor_is_fetched_once() {
    let mut db = MemoryDatabase::new();
    db.from_json(&carol()).unwrap();
    let first = Timestamp { secs: 10, nanos: 1 };
    let second = Timestamp { secs: 20, nanos: 2 };

    let dave = dereference_in_memory(
        "https://remote/dave",
        Some(document("https://remote/dave", "Dave")),
        first,
        &mut db,
    )
    .unwrap();
    assert_eq!(dave.id, "https://remote/dave");
    assert_eq!(dave.display_name, "Dave");
    assert_eq!(dave.last_refreshed_at, first);
    assert!(!dave.local);
    assert_eq!(db.len(), 2);
    assert_eq!(db.read_from_id("https://remote/dave").unwrap().idx, 1);

    let later = dereference_in_memory(
        "https://remote/dave",
        Some(document("https://remote/dave", "David")),
        second,
        &mut db,
    )
    .unwrap();
    assert_eq!(later.display_name, "Dave");
    assert_eq!(later.last_refreshed_at, first);
    assert_eq!(db.len(), 2);
}

#[test]
fn unknown_actor_without_a_document_fails() {
    let mut db = MemoryDatabase::new();
    let at = Timestamp { secs: 0, nanos: 0 };
    assert_eq!(
        dereference_in_memory("https://remote/dave", None, at, &mut db),
        Err(FederationError::DereferenceError)
    );
    assert_eq!(db.len(), 0);
}

#[test]
fn document_without_a_key_is_no_actor() {
    let mut db = MemoryDatabase::new();
    db.from_json(&carol()).unwrap();
    let at = Timestamp { secs: 0, nanos: 0 };
    let mut keyless = document("https://remote/dave", "Dave");
    keyless.public_key.public_key_pem = String::new();

    assert_eq!(
        dereference_in_memory("https://remote/dave", Some(keyless.clone()), at, &mut db),
        Err(FederationError::DereferenceError)
    );
    assert_eq!(dereference_fetched(Some(keyless), &mut db), Err(FederationError::DereferenceError));
    assert_eq!(db.len(), 1);
    assert_eq!(db.read_from_id("https://remote/dave"), Err(FederationError::NotFound));
}
