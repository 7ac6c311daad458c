use spaced::clock::Timestamp;
use spaced::database::{single_local, DatabaseTrait};
use spaced::error::{FederationError, Status};
use spaced::http::{
    http_get_user, http_ping, is_federation_request, link_to, respond_with_link,
    respond_with_user, webfinger, Webfinger, WebfingerQuery,
};
use spaced::memory::MemoryDatabase;
use spaced::models::DbUser;

fn alice() -> DbUser {
    DbUser {
        name: "alice".to_string(),
        display_name: "alice".to_string(),
        password_hash: None,
        email: None,
        federation_id: "https://node/alice".to_string(),
        inbox: "https://node/alice/inbox".to_string(),
        outbox: "https://node/alice/outbox".to_string(),
        local: true,
        public_key: "ALICEKEY".to_string(),
        private_key: Some("ALICESECRET".to_string()),
        last_refreshed_at: Timestamp { secs: 1_700_000_000, nanos: 0 },
        id: "https://node/alice".to_string(),
        idx: 0,
    }
}

fn store_with_alice() -> MemoryDatabase {
    let mut db = MemoryDatabase::new();
    db.from_json(&alice()).unwrap();
    db
}

#[test]
fn get_absent_user() {
    let db = MemoryDatabase::new();
    let response = http_get_user(Some("application/activity+json"), "fakeuser", &db);
    assert_eq!(response, Err(Status::NotFound));
    assert_eq!(Status::NotFound.code(), 404);
}

#[test]
fn absent_webfinger() {
    let db = MemoryDatabase::new();
    let query = WebfingerQuery { resource: "acct:LemmyDev@localhost".to_string() };
    let response = webfinger(&query, Some("LemmyDev"), &db);
    assert_eq!(response, Err(Status::NotFound));
    assert_eq!(Status::NotFound.code(), 404);
}

#[test]
fn webfinger_for_another_node_is_a_bad_request() {
    let db = store_with_alice();
    let query = WebfingerQuery { resource: "acct:LemmyDev@mastodon.social".to_string() };
    assert_eq!(webfinger(&query, None, &db), Err(Status::BadRequest));
}

#[test]
fn one_local_actor_of_a_name() {
    assert_eq!(single_local(vec![]), Err(FederationError::NotFound));
    assert_eq!(single_local(vec![alice()]), Ok(alice()));
    let mut twin = alice();
    twin.id = "https://node/alice2".to_string();
    assert_eq!(single_local(vec![alice(), twin.clone()]), Err(FederationError::StorageError));
    assert_eq!(
        single_local(vec![alice(), twin, alice()]),
        Err(FederationError::StorageError)
    );
}

#[test]
fn ping() {
    assert_eq!(http_ping(), "pong");
}

#[test]
fn get_local_user() {
    let db = store_with_alice();
    let person = http_get_user(Some("application/activity+json"), "alice", &db).unwrap();
    assert_eq!(person.preferred_username, "alice");
    assert_eq!(person.id, "https://node/alice");
    assert_eq!(person.name, "alice");

    let refused = http_get_user(Some("text/html"), "alice", &db);
    assert_eq!(refused, Err(Status::BadRequest));
    assert_eq!(Status::BadRequest.code(), 400);
}

#[test]
fn get_user_needs_the_federation_content_type() {
    let db = store_with_alice();
    assert_eq!(http_get_user(None, "alice", &db), Err(Status::BadRequest));
    assert_eq!(http_get_user(Some(""), "alice", &db), Err(Status::BadRequest));
    assert_eq!(http_get_user(Some("*/*"), "alice", &db), Err(Status::BadRequest));
    assert_eq!(
        http_get_user(Some("application/activity+json; charset=utf-8"), "alice", &db),
        Err(Status::BadRequest)
    );
    assert_eq!(
        http_get_user(Some("Application/Activity+Json"), "alice", &db),
        Err(Status::BadRequest)
    );
    assert!(is_federation_request(Some("application/activity+json")));
    assert!(!is_federation_request(Some("application/json")));
    assert!(!is_federation_request(None));
}

#[test]
fn get_user_serves_local_actors_only() {
    let mut db = MemoryDatabase::new();
    let mut remote = alice();
    remote.local = false;
    remote.private_key = None;
    db.from_json(&remote).unwrap();
    assert_eq!(
        http_get_user(Some("application/activity+json"), "alice", &db),
        Err(Status::NotFound)
    );
}

#[test]
fn get_user_with_an_unsound_record_is_an_internal_error() {
    let mut db = MemoryDatabase::new();
    let mut broken = alice();
    broken.outbox = "nowhere".to_string();
    db.from_json(&broken).unwrap();
    assert_eq!(
        http_get_user(Some("application/activity+json"), "alice", &db),
        Err(Status::InternalServerError)
    );
    assert_eq!(Status::InternalServerError.code(), 500);
}

#[test]
fn get_user_with_two_of_a_name_is_an_internal_error() {
    let mut db = store_with_alice();
    let mut twin = alice();
    twin.id = "https://node/alice2".to_string();
    db.from_json(&twin).unwrap();
    assert_eq!(
        http_get_user(Some("application/activity+json"), "alice", &db),
        Err(Status::InternalServerError)
    );
}

#[test]
fn respond_with_user_maps_failures() {
    assert_eq!(respond_with_user(Err(FederationError::NotFound)), Err(Status::NotFound));
    assert_eq!(
        respond_with_user(Err(FederationError::StorageError)),
        Err(Status::InternalServerError)
    );
    assert_eq!(
        respond_with_user(Err(FederationError::MalformedInput)),
        Err(Status::BadRequest)
    );
    assert_eq!(respond_with_user(Ok(alice())).unwrap().preferred_username, "alice");
}

#[test]
fn webfinger_miss() {
    let db = store_with_alice();
    let query = WebfingerQuery { resource: "acct:doesnotexist@localhost".to_string() };
    assert_eq!(webfinger(&query, Some("doesnotexist"), &db), Err(Status::NotFound));
}

#[test]
fn webfinger_hit() {
    let db = store_with_alice();
    let query = WebfingerQuery { resource: "acct:alice@node".to_string() };
    assert_eq!(
        webfinger(&query, Some("alice"), &db),
        Ok(Webfinger {
            subject: "acct:alice@node".to_string(),
            href: "https://node/alice".to_string()
        })
    );
}

#[test]
fn webfinger_serializes_the_federation_identifier() {
    let mut db = MemoryDatabase::new();
    let mut a = alice();
    a.federation_id = "HTTPS://NODE".to_string();
    db.from_json(&a).unwrap();
    let query = WebfingerQuery { resource: "acct:alice@node".to_string() };
    assert_eq!(webfinger(&query, Some("alice"), &db).unwrap().href, "https://node/");
}

#[test]
fn webfinger_without_a_handle_is_a_bad_request() {
    let db = store_with_alice();
    let query = WebfingerQuery { resource: "alice".to_string() };
    assert_eq!(webfinger(&query, None, &db), Err(Status::BadRequest));
}

#[test]
fn webfinger_without_a_federation_identifier_is_a_miss() {
    let mut db = MemoryDatabase::new();
    let mut a = alice();
    a.federation_id = String::new();
    db.from_json(&a).unwrap();
    let query = WebfingerQuery { resource: "acct:alice@node".to_string() };
    assert_eq!(webfinger(&query, Some("alice"), &db), Err(Status::NotFound));
    assert_eq!(
        respond_with_link("acct:alice@node", Err(FederationError::StorageError)),
        Err(Status::InternalServerError)
    );
    assert_eq!(link_to("acct:alice@node", None), Err(Status::NotFound));
}

#[test]
fn failures_and_their_status() {
    assert_eq!(FederationError::NotFound.status(), Status::NotFound);
    assert_eq!(FederationError::MalformedInput.status(), Status::BadRequest);
    assert_eq!(FederationError::VerificationFailure.status(), Status::InternalServerError);
    assert_eq!(FederationError::DereferenceError.status(), Status::InternalServerError);
    assert_eq!(FederationError::StorageError.status(), Status::InternalServerError);
}
