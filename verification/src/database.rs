//! The store's interface, the handle by which it is shared, and the mapping
//! between stored actors and their documents.

use std::sync::Arc;
use std::sync::Mutex;

use vstd::prelude::*;

use crate::clock::{now, Timestamp};
use crate::error::FederationError;
use crate::models::{ActorView, DbUser};
use crate::person::{Person, PersonType, PersonView, PublicKey};
use crate::text::opt_text;
use crate::urls::{parse_url, url_host, url_text};
use crate::verification::{origin_verdict, verify_origin};

verus! {

/// `std::sync::Mutex`, which the handles below give out. Nothing is claimed of
/// it.
#[verifier::external_type_specification]
#[verifier::external_body]
#[verifier::reject_recursive_types(T)]
pub struct ExMutex<T: ?Sized>(Mutex<T>);

/// What the node asks of its storage: rows of type `T`, failures of type `U`.
pub trait DatabaseTrait<T, U> {
    /// Finds the local actor with the handle `query`.
    fn read_local_user(&self, query: &str) -> Result<T, U>;

    /// Finds the actor with the identifier `query`.
    fn read_from_id(&self, query: &str) -> Result<T, U>;

    /// Inserts `input`, or overwrites the row that has its identifier, and
    /// reports how many rows that touched.
    fn from_json(&mut self, input: &DbUser) -> Result<usize, U>;
}

/// What holds a connection of type `T` behind a lock.
pub trait DbHandler<T> {
    fn db_conn(&self) -> &Mutex<T>;
}

/// A database shared by everything that works on one request or another.
pub struct DatabaseHandle<T>(Arc<T>);

impl<T> View for DatabaseHandle<T> {
    type V = T;

    /// The database the handle leads to.
    closed spec fn view(&self) -> T {
        *self.0
    }
}

impl<T> DatabaseHandle<T> {
    pub fn new(db: T) -> (handle: Self)
        ensures
            handle@ == db,
    {
        DatabaseHandle(Arc::new(db))
    }

    /// The database behind the handle.
    pub fn inner(&self) -> (db: &T)
        ensures
            *db == self@,
    {
        &*self.0
    }
}

impl<T> Clone for DatabaseHandle<T> {
    /// Another handle to the same database.
    fn clone(&self) -> (handle: Self)
        ensures
            handle@ == self@,
    {
        DatabaseHandle(self.0.clone())
    }
}

impl<T, D: DbHandler<T>> DbHandler<T> for DatabaseHandle<D> {
    /// The lock that the database behind the handle gives out.
    fn db_conn(&self) -> (conn: &Mutex<T>)
        ensures
            call_ensures(D::db_conn, (&self@,), conn),
    {
        self.0.db_conn()
    }
}

/// The document of the actor `a`, given the serializations of its three URIs.
pub open spec fn document_of(
    a: ActorView,
    id: Seq<char>,
    inbox: Seq<char>,
    outbox: Seq<char>,
) -> PersonView {
    PersonView {
        id,
        kind: PersonType::Person,
        preferred_username: a.display_name,
        name: a.name,
        inbox,
        outbox,
        public_key: PublicKey::spec_new(id, a.public_key),
    }
}

/// The document of the actor `a`: `None` unless its identifier, its inbox and
/// its outbox are absolute URIs, which the document then holds as serialized.
pub open spec fn to_wire_spec(a: ActorView) -> Option<PersonView> {
    match (url_text(a.id), url_text(a.inbox), url_text(a.outbox)) {
        (Some(id), Some(inbox), Some(outbox)) => Some(document_of(a, id, inbox, outbox)),
        _ => None,
    }
}

/// The record made of the document `p` at the time `now`: that of a remote
/// actor, without keys of its own or credentials, its federation identifier
/// left blank, its place in storage not yet assigned.
pub open spec fn from_wire_spec(p: PersonView, now: Timestamp) -> ActorView {
    ActorView {
        name: p.name,
        display_name: p.preferred_username,
        password_hash: None,
        email: None,
        federation_id: Seq::empty(),
        inbox: p.inbox,
        outbox: p.outbox,
        local: false,
        public_key: p.public_key.public_key_pem,
        private_key: None,
        last_refreshed_at: now,
        id: p.id,
        idx: 0,
    }
}

/// Whether the three URIs of `a` are written as `url::Url::parse` serializes
/// them, so that writing a document changes no letter of them.
pub open spec fn uris_are_serialized(a: ActorView) -> bool {
    &&& url_text(a.id) == Some(a.id)
    &&& url_text(a.inbox) == Some(a.inbox)
    &&& url_text(a.outbox) == Some(a.outbox)
}

/// An actor whose URIs are written as serialized survives the way out and back
/// in: its document has its identifier, its handle and label, its inbox, its
/// outbox and its public key; and the actor read back from that document, at
/// whatever time, has the same document again.
pub proof fn lemma_wire_round_trip(a: ActorView, now: Timestamp)
    ensures
        uris_are_serialized(a) ==> {
            &&& to_wire_spec(a) matches Some(p)
            &&& p.id == a.id
            &&& p.name == a.name
            &&& p.preferred_username == a.display_name
            &&& p.inbox == a.inbox
            &&& p.outbox == a.outbox
            &&& p.public_key.public_key_pem == a.public_key
            &&& to_wire_spec(from_wire_spec(p, now)) == Some(p)
        },
{
}

/// What comes in from a document is the record of a remote actor, and a sound
/// one where the document holds a public key.
pub proof fn lemma_from_wire_is_remote(p: PersonView, now: Timestamp)
    ensures
        !from_wire_spec(p, now).local,
        from_wire_spec(p, now).private_key is None,
        from_wire_spec(p, now).password_hash is None,
        from_wire_spec(p, now).email is None,
        from_wire_spec(p, now).federation_id.len() == 0,
        from_wire_spec(p, now).last_refreshed_at == now,
        from_wire_spec(p, now).well_formed() <==> p.public_key.public_key_pem.len() > 0,
{
}

/// What a lookup by identifier comes to: a miss is no failure.
pub open spec fn found_or_absent_spec(found: Result<ActorView, FederationError>) -> Result<
    Option<ActorView>,
    FederationError,
> {
    match found {
        Ok(a) => Ok(Some(a)),
        Err(FederationError::NotFound) => Ok(None),
        Err(e) => Err(e),
    }
}

/// What an upsert of `input` comes to, given what the store reported.
pub open spec fn confirm_upsert_spec(
    rows: Result<usize, FederationError>,
    input: ActorView,
) -> Result<ActorView, FederationError> {
    match rows {
        Ok(n) => if n == 1 {
            Ok(input)
        } else {
            Err(FederationError::StorageError)
        },
        Err(e) => Err(e),
    }
}

/// The view of what a lookup returned.
pub open spec fn found_view(found: Result<DbUser, FederationError>) -> Result<
    ActorView,
    FederationError,
> {
    match found {
        Ok(a) => Ok(a@),
        Err(e) => Err(e),
    }
}

/// The view of what a lookup came to.
pub open spec fn resolved_view(r: Result<Option<DbUser>, FederationError>) -> Result<
    Option<ActorView>,
    FederationError,
> {
    match r {
        Ok(Some(a)) => Ok(Some(a@)),
        Ok(None) => Ok(None),
        Err(e) => Err(e),
    }
}

/// The view of a document that was to be written.
pub open spec fn document_view(r: Result<Person, FederationError>) -> Result<
    PersonView,
    FederationError,
> {
    match r {
        Ok(p) => Ok(p@),
        Err(e) => Err(e),
    }
}

/// Turns what the store answered to a lookup by identifier into what the
/// resolver goes by: the actor, or its absence, or the store's failure.
pub fn found_or_absent(found: Result<DbUser, FederationError>) -> (r: Result<
    Option<DbUser>,
    FederationError,
>)
    ensures
        resolved_view(r) == found_or_absent_spec(found_view(found)),
{
    match found {
        Ok(user) => Ok(Some(user)),
        Err(FederationError::NotFound) => Ok(None),
        Err(e) => Err(e),
    }
}

/// Writes the document of `actor` from the serializations of its identifier,
/// inbox and outbox. Where one of the three is missing the actor's record is
/// unsound, which is fatal for the request.
pub fn to_wire(
    actor: DbUser,
    id: Option<String>,
    inbox: Option<String>,
    outbox: Option<String>,
) -> (r: Result<Person, FederationError>)
    ensures
        document_view(r) == (match (id, inbox, outbox) {
            (Some(i), Some(n), Some(o)) => Ok(document_of(actor@, i@, n@, o@)),
            _ => Err(FederationError::StorageError),
        }),
{
    match (id, inbox, outbox) {
        (Some(id), Some(inbox), Some(outbox)) => {
            let public_key = PublicKey::new(id.clone(), actor.public_key);
            Ok(
                Person {
                    id,
                    kind: PersonType::Person,
                    preferred_username: actor.display_name,
                    name: actor.name,
                    inbox,
                    outbox,
                    public_key,
                },
            )
        },
        _ => Err(FederationError::StorageError),
    }
}

/// Makes the record of a remote actor from its document, as read at the time
/// `now`. Nothing is persisted.
pub fn from_wire(json: Person, now: Timestamp) -> (actor: DbUser)
    ensures
        actor@ == from_wire_spec(json@, now),
{
    DbUser {
        name: json.name,
        display_name: json.preferred_username,
        password_hash: None,
        email: None,
        federation_id: String::new(),
        inbox: json.inbox,
        outbox: json.outbox,
        local: false,
        public_key: json.public_key.public_key_pem,
        private_key: None,
        last_refreshed_at: now,
        id: json.id,
        idx: 0,
    }
}

/// Picks the one local actor out of the rows that a lookup by handle matched:
/// no row is a miss, and several are a storage error, since the rules of the
/// store allow one local actor of a name.
pub fn single_local(rows: Vec<DbUser>) -> (r: Result<DbUser, FederationError>)
    ensures
        rows.len() == 0 ==> r == Err::<DbUser, FederationError>(FederationError::NotFound),
        rows.len() == 1 ==> found_view(r) == Ok::<ActorView, FederationError>(rows[0]@),
        rows.len() > 1 ==> r == Err::<DbUser, FederationError>(FederationError::StorageError),
{
    let mut rows = rows;
    let n = rows.len();
    match rows.pop() {
        None => Err(FederationError::NotFound),
        Some(row) => {
            if n == 1 {
                Ok(row)
            } else {
                Err(FederationError::StorageError)
            }
        },
    }
}

/// Decides what an upsert of `input` came to: the actor where the store
/// touched one row, a storage error where it touched any other number, and the
/// store's own failure where it failed.
pub fn confirm_upsert(rows: Result<usize, FederationError>, input: DbUser) -> (r: Result<
    DbUser,
    FederationError,
>)
    ensures
        found_view(r) == confirm_upsert_spec(rows, input@),
{
    match rows {
        Ok(n) => {
            if n == 1 {
                Ok(input)
            } else {
                Err(FederationError::StorageError)
            }
        },
        Err(e) => Err(e),
    }
}

impl DbUser {
    /// Looks the actor `object_id` up in the store. The answer is what
    /// `found_or_absent` makes of the store's.
    pub fn read_from_id<S: DatabaseTrait<DbUser, FederationError>>(object_id: &str, data: &S) -> (r:
        Result<Option<DbUser>, FederationError>)
        ensures
            exists|found: Result<DbUser, FederationError>|
                #[trigger] call_ensures(S::read_from_id, (data, object_id), found) && resolved_view(
                    r,
                ) == found_or_absent_spec(found_view(found)),
    {
        let found = data.read_from_id(object_id);
        found_or_absent(found)
    }

    /// The document of this actor. It fails, with a storage error, where the
    /// identifier, the inbox or the outbox is no absolute URI.
    pub fn into_json(self) -> (r: Result<Person, FederationError>)
        ensures
            document_view(r) == (match to_wire_spec(self@) {
                Some(p) => Ok(p),
                None => Err(FederationError::StorageError),
            }),
    {
        let id = parse_url(self.id.as_str());
        let inbox = parse_url(self.inbox.as_str());
        let outbox = parse_url(self.outbox.as_str());
        to_wire(self, id, inbox, outbox)
    }

    /// Checks that the identifier the document `json` claims is hosted at
    /// `expected_domain`.
    pub fn verify(json: &Person, expected_domain: &str) -> (r: Result<(), FederationError>)
        ensures
            r == origin_verdict(url_host(json@.id), expected_domain@),
    {
        verify_origin(json.id.as_str(), expected_domain)
    }

    /// Takes the document `json` in. A document without a public key is the
    /// document of no actor: it is refused, and the store is not asked. Of any
    /// other the record is made as of now and upserted, once. The store is left as that upsert left it, and the
    /// answer is what `confirm_upsert` makes of what the store reported: the
    /// record where one row was touched, a storage error for any other number,
    /// and the store's own failure as it is.
    pub fn from_json<S: DatabaseTrait<DbUser, FederationError>>(json: Person, data: &mut S) -> (r:
        Result<DbUser, FederationError>)
        ensures
            !json@.has_public_key() ==> r == Err::<DbUser, FederationError>(
                FederationError::DereferenceError,
            ) && *final(data) == *old(data),
            json@.has_public_key() ==> exists|
                store: &mut S,
                input: DbUser,
                rows: Result<usize, FederationError>,
            |
                {
                    &&& mut_ref_current(store) == *old(data)
                    &&& mut_ref_future(store) == *final(data)
                    &&& input@ == from_wire_spec(json@, input@.last_refreshed_at)
                    &&& #[trigger] call_ensures(S::from_json, (store, &input), rows)
                    &&& found_view(r) == confirm_upsert_spec(rows, input@)
                },
            r matches Ok(actor) ==> actor@ == from_wire_spec(json@, actor@.last_refreshed_at)
                && actor@.well_formed(),
    {
        if !json.has_public_key() {
            return Err(FederationError::DereferenceError);
        }
        let input = from_wire(json, now());
        let rows = data.from_json(&input);
        confirm_upsert(rows, input)
    }

    /// The identifier as a serialized URI, if it is one.
    pub fn id(&self) -> (r: Option<String>)
        ensures
            opt_text(r) == url_text(self@.id),
    {
        parse_url(self.id.as_str())
    }

    pub fn public_key_pem(&self) -> (r: &str)
        ensures
            r@ == self@.public_key,
    {
        self.public_key.as_str()
    }

    pub fn private_key_pem(&self) -> (r: Option<String>)
        ensures
            opt_text(r) == self@.private_key,
    {
        self.private_key.clone()
    }

    /// The inbox as a serialized URI, if it is one.
    pub fn inbox(&self) -> (r: Option<String>)
        ensures
            opt_text(r) == url_text(self@.inbox),
    {
        parse_url(self.inbox.as_str())
    }
}

} // verus!
