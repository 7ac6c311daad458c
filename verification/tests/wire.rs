use spaced::clock::Timestamp;
use spaced::database::{confirm_upsert, found_or_absent, from_wire, to_wire, DatabaseTrait};
use spaced::error::FederationError;
use spaced::memory::MemoryDatabase;
use spaced::models::DbUser;
use spaced::person::{Person, PersonType, PublicKey};

fn alice() -> DbUser {
    DbUser {
        name: "alice".to_string(),
        display_name: "Alice".to_string(),
        password_hash: Some("hash".to_string()),
        email: Some("alice@node".to_string()),
        federation_id: "https://node/alice".to_string(),
        inbox: "https://node/alice/inbox".to_string(),
        outbox: "https://node/alice/outbox".to_string(),
        local: true,
        public_key: "PUBLIC".to_string(),
        private_key: Some("PRIVATE".to_string()),
        last_refreshed_at: Timestamp { secs: 1_700_000_000, nanos: 5 },
        id: "https://node/alice".to_string(),
        idx: 3,
    }
}

fn bob_document() -> Person {
    Person {
        id: "https://remote/bob".to_string(),
        kind: PersonType::Person,
        preferred_username: "Bob".to_string(),
        name: "bob".to_string(),
        inbox: "https://remote/bob/inbox".to_string(),
        outbox: "https://remote/bob/outbox".to_string(),
        public_key: PublicKey::new("https://remote/bob".to_string(), "BOBKEY".to_string()),
    }
}

#[test]
fn document_of_a_local_actor() {
    let person = alice().into_json().unwrap();
    assert_eq!(person.id, "https://node/alice");
    assert_eq!(person.kind, PersonType::Person);
    assert_eq!(person.kind.as_str(), "Person");
    assert_eq!(person.preferred_username, "Alice");
    assert_eq!(person.name, "alice");
    assert_eq!(person.inbox, "https://node/alice/inbox");
    assert_eq!(person.outbox, "https://node/alice/outbox");
    assert_eq!(person.public_key.id, "https://node/alice#main-key");
    assert_eq!(person.public_key.owner, "https://node/alice");
    assert_eq!(person.public_key.public_key_pem, "PUBLIC");
}

#[test]
fn document_holds_uris_as_serialized() {
    let mut a = alice();
    a.id = "HTTPS://Node".to_string();
    a.inbox = "https://node:443/in box".to_string();
    let person = a.into_json().unwrap();
    assert_eq!(person.id, "https://node/");
    assert_eq!(person.inbox, "https://node/in%20box");
    assert_eq!(person.public_key.id, "https://node/#main-key");
    assert_eq!(person.public_key.owner, "https://node/");
}

#[test]
fn document_needs_absolute_uris() {
    let mut a = alice();
    a.inbox = "not a uri".to_string();
    assert_eq!(a.into_json(), Err(FederationError::StorageError));

    let mut b = alice();
    b.id = "/alice".to_string();
    assert_eq!(b.into_json(), Err(FederationError::StorageError));

    let mut c = alice();
    c.outbox = String::new();
    assert_eq!(c.into_json(), Err(FederationError::StorageError));
}

#[test]
fn to_wire_needs_all_three_serializations() {
    let id = Some("https://node/alice".to_string());
    let inbox = Some("https://node/alice/inbox".to_string());
    let outbox = Some("https://node/alice/outbox".to_string());
    assert!(to_wire(alice(), id.clone(), inbox.clone(), outbox.clone()).is_ok());
    assert_eq!(
        to_wire(alice(), None, inbox.clone(), outbox.clone()),
        Err(FederationError::StorageError)
    );
    assert_eq!(
        to_wire(alice(), id.clone(), None, outbox.clone()),
        Err(FederationError::StorageError)
    );
    assert_eq!(to_wire(alice(), id, inbox, None), Err(FederationError::StorageError));
}

#[test]
fn record_of_a_document() {
    let at = Timestamp { secs: 42, nanos: 7 };
    let actor = from_wire(bob_document(), at);
    assert_eq!(actor.name, "bob");
    assert_eq!(actor.display_name, "Bob");
    assert_eq!(actor.password_hash, None);
    assert_eq!(actor.email, None);
    assert_eq!(actor.federation_id, "");
    assert_eq!(actor.inbox, "https://remote/bob/inbox");
    assert_eq!(actor.outbox, "https://remote/bob/outbox");
    assert!(!actor.local);
    assert_eq!(actor.public_key, "BOBKEY");
    assert_eq!(actor.private_key, None);
    assert_eq!(actor.last_refreshed_at, at);
    assert_eq!(actor.id, "https://remote/bob");
    assert_eq!(actor.idx, 0);
    assert!(actor.is_well_formed());
}

#[test]
fn round_trip_reproduces_the_document() {
    let first = alice().into_json().unwrap();
    let back = from_wire(first.clone(), Timestamp { secs: 1, nanos: 0 });
    let second = back.into_json().unwrap();
    assert_eq!(second, first);
    assert_eq!(second.id, alice().id);
    assert_eq!(second.name, alice().name);
    assert_eq!(second.preferred_username, alice().display_name);
    assert_eq!(second.inbox, alice().inbox);
    assert_eq!(second.outbox, alice().outbox);
    assert_eq!(second.public_key.public_key_pem, alice().public_key);
}

#[test]
fn round_trip_drops_credentials() {
    let back = from_wire(alice().into_json().unwrap(), Timestamp { secs: 1, nanos: 0 });
    assert_eq!(back.private_key, None);
    assert_eq!(back.password_hash, None);
    assert_eq!(back.email, None);
    assert!(!back.local);
}

#[test]
fn upsert_is_confirmed_by_one_row_only() {
    let a = alice();
    assert_eq!(confirm_upsert(Ok(1), a.clone()), Ok(a.clone()));
    assert_eq!(confirm_upsert(Ok(0), a.clone()), Err(FederationError::StorageError));
    assert_eq!(confirm_upsert(Ok(2), a.clone()), Err(FederationError::StorageError));
    assert_eq!(
        confirm_upsert(Err(FederationError::StorageError), a.clone()),
        Err(FederationError::StorageError)
    );
    assert_eq!(
        confirm_upsert(Err(FederationError::NotFound), a),
        Err(FederationError::NotFound)
    );
}

#[test]
fn a_miss_is_no_failure_of_a_lookup() {
    let a = alice();
    assert_eq!(found_or_absent(Ok(a.clone())), Ok(Some(a)));
    assert_eq!(found_or_absent(Err(FederationError::NotFound)), Ok(None));
    assert_eq!(
        found_or_absent(Err(FederationError::StorageError)),
        Err(FederationError::StorageError)
    );
}

#[test]
fn read_from_id_goes_by_the_store() {
    let mut db = MemoryDatabase::new();
    assert_eq!(DbUser::read_from_id("https://node/alice", &db), Ok(None));
    db.from_json(&alice()).unwrap();
    let found = DbUser::read_from_id("https://node/alice", &db).unwrap().unwrap();
    assert_eq!(found.name, "alice");
}

#[test]
fn idempotent_upsert() {
    let mut db = MemoryDatabase::new();
    let first = DbUser::from_json(bob_document(), &mut db).unwrap();
    let second = DbUser::from_json(bob_document(), &mut db).unwrap();
    assert_eq!(db.len(), 1);
    let stored = db.read_from_id("https://remote/bob").unwrap();
    assert_eq!(stored.id, "https://remote/bob");
    assert_eq!(stored.name, "bob");
    assert_eq!(stored.display_name, "Bob");
    assert_eq!(stored.inbox, "https://remote/bob/inbox");
    assert_eq!(stored.outbox, "https://remote/bob/outbox");
    assert_eq!(stored.public_key, "BOBKEY");
    assert!(!stored.local);
    assert_eq!(first.id, second.id);
    assert_eq!(stored.last_refreshed_at, second.last_refreshed_at);
}

#[test]
fn document_without_a_key_is_refused() {
    let mut db = MemoryDatabase::new();
    let mut doc = bob_document();
    doc.public_key.public_key_pem = String::new();
    assert!(!doc.has_public_key());
    assert!(bob_document().has_public_key());
    assert_eq!(DbUser::from_json(doc, &mut db), Err(FederationError::DereferenceError));
    assert_eq!(db.len(), 0);

    DbUser::from_json(bob_document(), &mut db).unwrap();
    let mut emptied = bob_document();
    emptied.public_key.public_key_pem = String::new();
    assert_eq!(DbUser::from_json(emptied, &mut db), Err(FederationError::DereferenceError));
    assert_eq!(db.len(), 1);
    assert_eq!(db.read_from_id("https://remote/bob").unwrap().public_key, "BOBKEY");
}

#[test]
fn from_json_stamps_the_present() {
    let mut db = MemoryDatabase::new();
    let actor = DbUser::from_json(bob_document(), &mut db).unwrap();
    assert!(actor.last_refreshed_at.secs > 1_600_000_000);
    assert!(actor.last_refreshed_at.nanos < 2_000_000_000);
}

#[test]
fn getters() {
    let a = alice();
    assert_eq!(a.id(), Some("https://node/alice".to_string()));
    assert_eq!(a.inbox(), Some("https://node/alice/inbox".to_string()));
    assert_eq!(a.public_key_pem(), "PUBLIC");
    assert_eq!(a.private_key_pem(), Some("PRIVATE".to_string()));

    let mut broken = alice();
    broken.id = "alice".to_string();
    broken.inbox = "https://node".to_string();
    assert_eq!(broken.id(), None);
    assert_eq!(broken.inbox(), Some("https://node/".to_string()));
}

#[test]
fn main_key_of_an_owner() {
    let key = PublicKey::new("https://node/alice".to_string(), "PEM".to_string());
    assert_eq!(key.id, "https://node/alice#main-key");
    assert_eq!(key.owner, "https://node/alice");
    assert_eq!(key.public_key_pem, "PEM");
    assert_eq!(key.clone(), key);
}
