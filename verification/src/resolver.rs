//! From an identifier to the actor behind it. What the node knows it answers
//! from its store; for what it does not know, the caller fetches the actor's
//! document and hands it in.

use vstd::prelude::*;

use crate::clock::Timestamp;
use crate::database::{
    confirm_upsert, confirm_upsert_spec, found_or_absent, found_view, from_wire, from_wire_spec,
    DatabaseTrait,
};
use crate::error::FederationError;
use crate::memory::{
    find_by_id, has_id_at, takes_in, holds_document, lemma_upsert_keeps_valid,
    lemma_upsert_then_find, position, upsert_report, upsert_rows, valid_rows, MemoryDatabase,
};
use crate::models::{ActorView, DbUser};
use crate::person::{Person, PersonView};

verus! {

/// Where the resolution of an identifier stands after the store was asked.
#[derive(Debug, PartialEq, Eq)]
pub enum Resolution {
    /// The store holds the actor.
    Known(DbUser),
    /// The store does not hold the actor: the document at this identifier is
    /// to be fetched.
    Fetch(String),
    /// The store failed.
    Failed(FederationError),
}

/// A `Resolution` as the contracts see it.
pub enum ResolutionView {
    Known(ActorView),
    Fetch(Seq<char>),
    Failed(FederationError),
}

impl View for Resolution {
    type V = ResolutionView;

    open spec fn view(&self) -> ResolutionView {
        match self {
            Resolution::Known(a) => ResolutionView::Known(a@),
            Resolution::Fetch(id) => ResolutionView::Fetch(id@),
            Resolution::Failed(e) => ResolutionView::Failed(*e),
        }
    }
}

/// Where the resolution of `id` stands, given what the store answered to the
/// lookup: an actor found is returned as it is; a miss asks for a fetch; any
/// other failure of the store ends the resolution.
pub open spec fn resolution_of(
    id: Seq<char>,
    found: Result<ActorView, FederationError>,
) -> ResolutionView {
    match found {
        Ok(a) => ResolutionView::Known(a),
        Err(FederationError::NotFound) => ResolutionView::Fetch(id),
        Err(e) => ResolutionView::Failed(e),
    }
}

/// Decides how the resolution of `id` goes on from the store's answer.
pub fn resolve_found(id: &str, found: Result<DbUser, FederationError>) -> (r: Resolution)
    ensures
        r@ == resolution_of(id@, found_view(found)),
{
    match found_or_absent(found) {
        Ok(Some(actor)) => Resolution::Known(actor),
        Ok(None) => Resolution::Fetch(id.to_owned()),
        Err(e) => Resolution::Failed(e),
    }
}

/// Starts the resolution of `id`: asks the store, and goes by its answer as
/// `resolve_found` says. No document is fetched for an actor the store holds.
pub fn dereference<S: DatabaseTrait<DbUser, FederationError>>(id: &str, data: &S) -> (r: Resolution)
    ensures
        exists|found: Result<DbUser, FederationError>|
            #[trigger] call_ensures(S::read_from_id, (data, id), found) && r@ == resolution_of(
                id@,
                found_view(found),
            ),
{
    let found = data.read_from_id(id);
    resolve_found(id, found)
}

/// The view of a document that a fetch brought, if it brought one.
pub open spec fn fetched_view(fetched: Option<Person>) -> Option<PersonView> {
    match fetched {
        Some(doc) => Some(doc@),
        None => None,
    }
}

/// Whether a fetch brought the document of an actor: a document, and one that
/// holds a public key.
pub open spec fn has_actor_document(fetched: Option<PersonView>) -> bool {
    fetched matches Some(doc) && doc.has_public_key()
}

/// Ends the resolution of an actor the store did not hold. Without the
/// document of an actor (the fetch failed, or what came holds no public key)
/// the resolution has failed and the store is not asked. With one, the record
/// is made of it as of now and upserted, once: the store is left as that
/// upsert left it, and the answer is what `confirm_upsert` makes of what the
/// store reported.
pub fn dereference_fetched<S: DatabaseTrait<DbUser, FederationError>>(
    fetched: Option<Person>,
    data: &mut S,
) -> (r: Result<DbUser, FederationError>)
    ensures
        !has_actor_document(fetched_view(fetched)) ==> r == Err::<DbUser, FederationError>(
            FederationError::DereferenceError,
        ) && *final(data) == *old(data),
        has_actor_document(fetched_view(fetched)) ==> exists|
            store: &mut S,
            input: DbUser,
            rows: Result<usize, FederationError>,
        |
            {
                &&& mut_ref_current(store) == *old(data)
                &&& mut_ref_future(store) == *final(data)
                &&& input@ == from_wire_spec(fetched->0@, input@.last_refreshed_at)
                &&& #[trigger] call_ensures(S::from_json, (store, &input), rows)
                &&& found_view(r) == confirm_upsert_spec(rows, input@)
            },
        r matches Ok(actor) ==> fetched matches Some(doc) && actor@ == from_wire_spec(
            doc@,
            actor@.last_refreshed_at,
        ) && actor@.well_formed(),
{
    match fetched {
        Some(doc) => DbUser::from_json(doc, data),
        None => Err(FederationError::DereferenceError),
    }
}

/// The whole resolution of `id` over the rows `rows`, where a fetch of `id`
/// would bring `fetched` at the time `at`: the actor found and the rows after.
/// An actor the store holds is returned as it stands, and the rows stay as
/// they are, whatever a fetch would bring. For any other, a fetch that brings
/// no document of an actor fails the resolution; such a document is made a
/// record and upserted, and the record comes back where the store took it in.
pub open spec fn dereference_spec(
    rows: Seq<ActorView>,
    id: Seq<char>,
    fetched: Option<PersonView>,
    at: Timestamp,
) -> (Result<ActorView, FederationError>, Seq<ActorView>) {
    match find_by_id(rows, id) {
        Ok(actor) => (Ok(actor), rows),
        Err(_) => if has_actor_document(fetched) {
            let input = from_wire_spec(fetched->0, at);
            (confirm_upsert_spec(upsert_report(rows, input), input), upsert_rows(rows, input))
        } else {
            (Err(FederationError::DereferenceError), rows)
        },
    }
}

/// Resolves `id` over a store in memory, from start to end, for a fetch whose
/// outcome is at hand: `fetched` is what a fetch of `id` brings, and is looked
/// at only where the store does not hold the actor.
pub fn dereference_in_memory(
    id: &str,
    fetched: Option<Person>,
    at: Timestamp,
    data: &mut MemoryDatabase,
) -> (r: Result<DbUser, FederationError>)
    ensures
        (found_view(r), final(data)@) == dereference_spec(
            old(data)@,
            id@,
            fetched_view(fetched),
            at,
        ),
{
    match data.read_from_id(id) {
        Ok(actor) => Ok(actor),
        Err(_) => match fetched {
            None => Err(FederationError::DereferenceError),
            Some(doc) => {
                if doc.has_public_key() {
                    let input = from_wire(doc, at);
                    let rows = data.from_json(&input);
                    confirm_upsert(rows, input)
                } else {
                    Err(FederationError::DereferenceError)
                }
            },
        },
    }
}

/// An actor the store holds is resolved without a fetch and without a write:
/// whatever a fetch would bring, the answer is the stored actor and the rows
/// stay as they are.
pub proof fn lemma_known_actor_needs_no_fetch(
    rows: Seq<ActorView>,
    id: Seq<char>,
    fetched: Option<PersonView>,
    at: Timestamp,
)
    requires
        find_by_id(rows, id) is Ok,
    ensures
        dereference_spec(rows, id, fetched, at) == (find_by_id(rows, id), rows),
{
}

/// An actor that was resolved from its document is held by the store from
/// then on: the document's one row holds what the document holds, and every
/// later resolution of the identifier answers from the store, leaving it as it
/// is. (The document has to be the one of the identifier asked for, and the
/// store has to have a place left.)
pub proof fn lemma_resolved_actor_is_known(
    rows: Seq<ActorView>,
    doc: PersonView,
    at: Timestamp,
    later_fetch: Option<PersonView>,
    later: Timestamp,
)
    requires
        valid_rows(rows),
        find_by_id(rows, doc.id) is Err,
        takes_in(rows, from_wire_spec(doc, at)),
    ensures
        ({
            let (actor, after) = dereference_spec(rows, doc.id, Some(doc), at);
            &&& actor == Ok::<ActorView, FederationError>(from_wire_spec(doc, at))
            &&& after.len() == rows.len() + 1
            &&& valid_rows(after)
            &&& find_by_id(after, doc.id) matches Ok(row) && holds_document(row, doc)
            &&& dereference_spec(after, doc.id, later_fetch, later) == (find_by_id(after, doc.id), after)
        }),
{
    let input = from_wire_spec(doc, at);
    lemma_upsert_keeps_valid(rows, input);
    lemma_upsert_then_find(rows, input);
    if position(rows, doc.id) is Some {
        let k = position(rows, doc.id)->0;
        assert(has_id_at(rows, doc.id, k));
    }
}

} // verus!
