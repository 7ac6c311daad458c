//! The request of one actor to follow another, and the handshake that a
//! request goes through before the relationship is on record.

use vstd::pervasive::unreached;
use vstd::prelude::*;

use crate::clock::Timestamp;
use crate::database::from_wire_spec;
use crate::error::FederationError;
use crate::memory::{
    find_by_id, has_id_at, lemma_position_is, lemma_upsert_keeps_others,
    lemma_upsert_keeps_valid, position, takes_in, upsert_rows, valid_rows,
};
use crate::models::{ActorView, DbUser};
use crate::person::PersonView;
use crate::resolver::{dereference_spec, lemma_resolved_actor_is_known};
use crate::text::opt_text;
use crate::urls::{parse_url, url_host, url_text};
use crate::verification::{origin_verdict, verify_origin};

verus! {

/// The one kind of activity this node takes in.
#[derive(Clone, Copy, Debug, PartialEq, Eq, Structural)]
pub enum FollowType {
    Follow,
}

/// A request to follow: `actor` asks to follow `object`.
#[derive(Debug, PartialEq, Eq)]
pub struct Follow {
    pub actor: String,
    pub object: String,
    pub kind: FollowType,
    /// The identifier of the activity itself.
    pub id: String,
}

/// A `Follow` as the contracts see it.
pub struct FollowView {
    pub actor: Seq<char>,
    pub object: Seq<char>,
    pub kind: FollowType,
    pub id: Seq<char>,
}

impl View for Follow {
    type V = FollowView;

    open spec fn view(&self) -> FollowView {
        FollowView { actor: self.actor@, object: self.object@, kind: self.kind, id: self.id@ }
    }
}

impl Clone for Follow {
    fn clone(&self) -> (r: Self)
        ensures
            r@ == self@,
    {
        Follow {
            actor: self.actor.clone(),
            object: self.object.clone(),
            kind: self.kind,
            id: self.id.clone(),
        }
    }
}

/// A relationship: who follows, and whom.
pub type Edge = (Seq<char>, Seq<char>);

/// The relationships after `edge` was put on record: the same where it was on
/// record already.
pub open spec fn with_edge(edges: Seq<Edge>, edge: Edge) -> Seq<Edge> {
    if edges.contains(edge) {
        edges
    } else {
        edges.push(edge)
    }
}

/// Putting a relationship on record twice is putting it on record once.
pub proof fn lemma_record_is_idempotent(edges: Seq<Edge>, edge: Edge)
    ensures
        with_edge(edges, edge).contains(edge),
        with_edge(with_edge(edges, edge), edge) == with_edge(edges, edge),
{
    if !edges.contains(edge) {
        assert(edges.push(edge)[edges.len() as int] == edge);
    }
}

/// Relationships on record keep being on record, and none occurs twice.
pub proof fn lemma_record_keeps(edges: Seq<Edge>, edge: Edge)
    requires
        edges.no_duplicates(),
    ensures
        with_edge(edges, edge).no_duplicates(),
        forall|e: Edge| edges.contains(e) ==> with_edge(edges, edge).contains(e),
{
    let after = with_edge(edges, edge);
    if !edges.contains(edge) {
        assert forall|e: Edge| edges.contains(e) implies after.contains(e) by {
            let i = choose|i: int| 0 <= i < edges.len() && edges[i] == e;
            assert(after[i] == e);
        }
    }
}

spec fn edges_of(v: Vec<(String, String)>) -> Seq<Edge> {
    Seq::new(v.len() as nat, |i: int| (v[i].0@, v[i].1@))
}

/// The relationships on record, in the order in which they were recorded.
pub struct Relationships {
    edges: Vec<(String, String)>,
}

impl View for Relationships {
    type V = Seq<Edge>;

    closed spec fn view(&self) -> Seq<Edge> {
        edges_of(self.edges)
    }
}

impl Relationships {
    #[verifier::type_invariant]
    spec fn sound(self) -> bool {
        self@.no_duplicates()
    }

    /// No relationship at all.
    pub fn new() -> (r: Self)
        ensures
            r@ == Seq::<Edge>::empty(),
    {
        Relationships { edges: Vec::new() }
    }

    /// How many relationships are on record. None is counted twice.
    pub fn len(&self) -> (n: usize)
        ensures
            n == self@.len(),
            self@.no_duplicates(),
    {
        proof {
            use_type_invariant(self);
        }
        self.edges.len()
    }

    /// Whether `follower` follows `followed`.
    pub fn contains(&self, follower: &str, followed: &str) -> (r: bool)
        ensures
            r == self@.contains((follower@, followed@)),
    {
        let a = follower.to_owned();
        let b = followed.to_owned();
        let mut i: usize = 0;
        while i < self.edges.len()
            invariant
                i <= self.edges.len(),
                a@ == follower@,
                b@ == followed@,
                forall|j: int| 0 <= j < i ==> self@[j] != (follower@, followed@),
            decreases self.edges.len() - i,
        {
            if self.edges[i].0 == a && self.edges[i].1 == b {
                assert(self@[i as int] == (follower@, followed@));
                return true;
            }
            i += 1;
        }
        false
    }

    /// Puts on record that `follower` follows `followed`, and says whether that
    /// was news. A relationship on record already is left as it stands.
    pub fn record(&mut self, follower: String, followed: String) -> (fresh: bool)
        ensures
            final(self)@ == with_edge(old(self)@, (follower@, followed@)),
            fresh == !old(self)@.contains((follower@, followed@)),
            final(self)@.no_duplicates(),
    {
        proof {
            use_type_invariant(&*self);
            lemma_record_keeps(self@, (follower@, followed@));
        }
        if self.contains(follower.as_str(), followed.as_str()) {
            return false;
        }
        let mut edges: Vec<(String, String)> = Vec::new();
        std::mem::swap(&mut self.edges, &mut edges);
        edges.push((follower, followed));
        assert(edges_of(edges) =~= with_edge(old(self)@, (follower@, followed@)));
        self.edges = edges;
        true
    }
}

/// Where a handshake stands.
#[derive(Clone, Copy, Debug, PartialEq, Eq, Structural)]
pub enum HandshakeState {
    /// The request has come in and nothing was done about it yet.
    Received,
    /// Both parties are being resolved.
    Resolving,
    /// Both parties are known; the claim of the follower is to be checked.
    Verifying,
    /// The relationship is being put on record.
    Persisting,
    /// The relationship is on record.
    Completed,
    /// The handshake has ended without the relationship, for this reason.
    Failed(FederationError),
}

/// What happened outside the handshake since its last step.
#[derive(Debug, PartialEq, Eq)]
pub enum HandshakeEvent {
    /// Nothing: the handshake is asked to go on by itself.
    Proceed,
    /// Both parties went through the resolver, with these outcomes.
    Resolved { actor: Result<DbUser, FederationError>, object: Result<DbUser, FederationError> },
    /// The relationship was handed to storage, with this outcome.
    Persisted(Result<(), FederationError>),
}

/// What the handshake waits for.
#[derive(Debug, PartialEq, Eq)]
pub enum HandshakeAction {
    /// For being asked to go on.
    Proceed,
    /// For both parties to be resolved.
    Resolve { actor: String, object: String },
    /// For the relationship to be put on record.
    Persist { follower: String, followed: String },
    /// For nothing: the handshake has ended.
    Done,
}

/// A `HandshakeAction` as the contracts see it.
pub enum ActionView {
    Proceed,
    Resolve { actor: Seq<char>, object: Seq<char> },
    Persist { follower: Seq<char>, followed: Seq<char> },
    Done,
}

impl View for HandshakeAction {
    type V = ActionView;

    open spec fn view(&self) -> ActionView {
        match self {
            HandshakeAction::Proceed => ActionView::Proceed,
            HandshakeAction::Resolve { actor, object } => ActionView::Resolve {
                actor: actor@,
                object: object@,
            },
            HandshakeAction::Persist { follower, followed } => ActionView::Persist {
                follower: follower@,
                followed: followed@,
            },
            HandshakeAction::Done => ActionView::Done,
        }
    }
}

impl HandshakeState {
    /// Whether the handshake has ended.
    pub open spec fn is_terminal(self) -> bool {
        self is Completed || self is Failed
    }

    /// What a handshake for `follow` waits for in this state.
    pub open spec fn awaits(self, follow: FollowView) -> ActionView {
        match self {
            HandshakeState::Received => ActionView::Proceed,
            HandshakeState::Resolving => ActionView::Resolve {
                actor: follow.actor,
                object: follow.object,
            },
            HandshakeState::Verifying => ActionView::Proceed,
            HandshakeState::Persisting => ActionView::Persist {
                follower: follow.actor,
                followed: follow.object,
            },
            HandshakeState::Completed => ActionView::Done,
            HandshakeState::Failed(_) => ActionView::Done,
        }
    }

    /// The state that follows this one on `event`, for a request whose
    /// follower has the verdict `verdict` of the verifier. Each state goes on
    /// only on the event it waits for, and stays as it is on any other; the
    /// two last states are left on none. A party that was not resolved ends
    /// the handshake with the resolver's reason, the follower's first; a
    /// follower hosted elsewhere than the request came from ends it with the
    /// verifier's; storage that failed ends it with its own.
    pub open spec fn next(self, verdict: Result<(), FederationError>, event: HandshakeEvent) -> Self {
        match (self, event) {
            (HandshakeState::Received, HandshakeEvent::Proceed) => HandshakeState::Resolving,
            (HandshakeState::Resolving, HandshakeEvent::Resolved { actor, object }) => match (
                actor,
                object,
            ) {
                (Err(e), _) => HandshakeState::Failed(e),
                (Ok(_), Err(e)) => HandshakeState::Failed(e),
                (Ok(_), Ok(_)) => HandshakeState::Verifying,
            },
            (HandshakeState::Verifying, HandshakeEvent::Proceed) => match verdict {
                Ok(_) => HandshakeState::Persisting,
                Err(e) => HandshakeState::Failed(e),
            },
            (HandshakeState::Persisting, HandshakeEvent::Persisted(outcome)) => match outcome {
                Ok(_) => HandshakeState::Completed,
                Err(e) => HandshakeState::Failed(e),
            },
            _ => self,
        }
    }
}

/// The handshake of one request, from its arrival to its end.
pub struct Handshake {
    follow: Follow,
    origin: String,
    state: HandshakeState,
}

impl Handshake {
    /// The request.
    pub closed spec fn follow(&self) -> FollowView {
        self.follow@
    }

    /// The host the request came from.
    pub closed spec fn origin(&self) -> Seq<char> {
        self.origin@
    }

    /// Where the handshake stands.
    pub closed spec fn spec_state(&self) -> HandshakeState {
        self.state
    }

    /// What the verifier says of the follower the request names, held against
    /// the host the request came from.
    pub open spec fn verdict(&self) -> Result<(), FederationError> {
        origin_verdict(url_host(self.follow().actor), self.origin())
    }

    /// The handshake of the request `follow` that came from the host
    /// `origin`.
    pub fn new(follow: Follow, origin: String) -> (h: Self)
        ensures
            h.follow() == follow@,
            h.origin() == origin@,
            h.spec_state() == HandshakeState::Received,
    {
        Handshake { follow, origin, state: HandshakeState::Received }
    }

    /// Where the handshake stands.
    #[verifier::when_used_as_spec(spec_state)]
    pub fn state(&self) -> (s: HandshakeState)
        ensures
            s == self.spec_state(),
    {
        self.state
    }

    /// How the handshake ended, if it has.
    pub fn outcome(&self) -> (r: Option<Result<(), FederationError>>)
        ensures
            r == (match self.spec_state() {
                HandshakeState::Completed => Some(Ok::<(), FederationError>(())),
                HandshakeState::Failed(e) => Some(Err::<(), FederationError>(e)),
                _ => None,
            }),
    {
        match self.state {
            HandshakeState::Completed => Some(Ok(())),
            HandshakeState::Failed(e) => Some(Err(e)),
            _ => None,
        }
    }

    /// What the handshake waits for as it stands.
    pub fn awaited(&self) -> (action: HandshakeAction)
        ensures
            action@ == self.spec_state().awaits(self.follow()),
    {
        match self.state {
            HandshakeState::Received => HandshakeAction::Proceed,
            HandshakeState::Resolving => HandshakeAction::Resolve {
                actor: self.follow.actor.clone(),
                object: self.follow.object.clone(),
            },
            HandshakeState::Verifying => HandshakeAction::Proceed,
            HandshakeState::Persisting => HandshakeAction::Persist {
                follower: self.follow.actor.clone(),
                followed: self.follow.object.clone(),
            },
            HandshakeState::Completed => HandshakeAction::Done,
            HandshakeState::Failed(_) => HandshakeAction::Done,
        }
    }

    /// Takes the handshake one step on: to the state that `next` gives for
    /// `event`, and says what it waits for there. The request and its origin
    /// stay as they are.
    pub fn advance(&mut self, event: HandshakeEvent) -> (action: HandshakeAction)
        ensures
            final(self).spec_state() == old(self).spec_state().next(old(self).verdict(), event),
            final(self).follow() == old(self).follow(),
            final(self).origin() == old(self).origin(),
            action@ == final(self).spec_state().awaits(final(self).follow()),
    {
        let state = match (self.state, event) {
            (HandshakeState::Received, HandshakeEvent::Proceed) => HandshakeState::Resolving,
            (HandshakeState::Resolving, HandshakeEvent::Resolved { actor, object }) => match (
                actor,
                object,
            ) {
                (Err(e), _) => HandshakeState::Failed(e),
                (Ok(_), Err(e)) => HandshakeState::Failed(e),
                (Ok(_), Ok(_)) => HandshakeState::Verifying,
            },
            (HandshakeState::Verifying, HandshakeEvent::Proceed) => match verify_origin(
                self.follow.actor.as_str(),
                self.origin.as_str(),
            ) {
                Ok(_) => HandshakeState::Persisting,
                Err(e) => HandshakeState::Failed(e),
            },
            (HandshakeState::Persisting, HandshakeEvent::Persisted(outcome)) => match outcome {
                Ok(_) => HandshakeState::Completed,
                Err(e) => HandshakeState::Failed(e),
            },
            (state, _) => state,
        };
        self.state = state;
        self.awaited()
    }
}

/// A handshake that has ended stays where it is, whatever happens.
pub proof fn lemma_terminal_states_absorb(
    state: HandshakeState,
    verdict: Result<(), FederationError>,
    event: HandshakeEvent,
)
    requires
        state.is_terminal(),
    ensures
        state.next(verdict, event) == state,
{
}

/// No relationship is recorded for a follower whose claim was not verified: a
/// handshake enters `Persisting` only from `Verifying`, and only on a good
/// verdict.
pub proof fn lemma_persisting_needs_verdict(
    state: HandshakeState,
    verdict: Result<(), FederationError>,
    event: HandshakeEvent,
)
    requires
        state != HandshakeState::Persisting,
        state.next(verdict, event) == HandshakeState::Persisting,
    ensures
        state == HandshakeState::Verifying,
        verdict is Ok,
{
}

/// What a request comes to, given how its parties were resolved: the reason
/// the follower was not resolved; else the reason the followed was not; else
/// the verdict on the follower's claim.
pub open spec fn receive_outcome(
    follow: FollowView,
    origin: Seq<char>,
    actor: Result<DbUser, FederationError>,
    object: Result<DbUser, FederationError>,
) -> Result<(), FederationError> {
    match (actor, object) {
        (Err(e), _) => Err(e),
        (Ok(_), Err(e)) => Err(e),
        (Ok(_), Ok(_)) => origin_verdict(url_host(follow.actor), origin),
    }
}

/// The request made of three identifiers as serialized: none unless all three
/// are there.
pub open spec fn follow_of(
    actor: Option<Seq<char>>,
    object: Option<Seq<char>>,
    id: Option<Seq<char>>,
) -> Result<FollowView, FederationError> {
    match (actor, object, id) {
        (Some(actor), Some(object), Some(id)) => Ok(
            FollowView { actor, object, kind: FollowType::Follow, id },
        ),
        _ => Err(FederationError::MalformedInput),
    }
}

/// The view of a request that was to be read.
pub open spec fn follow_view(r: Result<Follow, FederationError>) -> Result<
    FollowView,
    FederationError,
> {
    match r {
        Ok(f) => Ok(f@),
        Err(e) => Err(e),
    }
}

/// A request to follow, from a follower the node does not know yet to an
/// actor it holds, where the follower's document is the one a fetch brings and
/// the follower is hosted where the request came from. Resolving the follower
/// takes its document in as one new row and leaves every other row as it was;
/// resolving the followed answers from the store. The request then succeeds
/// and the relationship is on record. The same request, sent again, finds
/// both parties in the store, whatever a fetch would bring, adds no row, and
/// leaves the relationships as they are.
pub proof fn lemma_follow_of_unknown_actor(
    rows: Seq<ActorView>,
    edges: Seq<Edge>,
    follow: FollowView,
    origin: Seq<char>,
    doc: PersonView,
    at: Timestamp,
    later_fetch: Option<PersonView>,
    later: Timestamp,
)
    requires
        valid_rows(rows),
        find_by_id(rows, follow.actor) is Err,
        find_by_id(rows, follow.object) is Ok,
        doc.id == follow.actor,
        takes_in(rows, from_wire_spec(doc, at)),
    ensures
        ({
            let (actor, after) = dereference_spec(rows, follow.actor, Some(doc), at);
            let (object, last) = dereference_spec(after, follow.object, later_fetch, later);
            let recorded = with_edge(edges, (follow.actor, follow.object));
            &&& actor == Ok::<ActorView, FederationError>(from_wire_spec(doc, at))
            &&& after.len() == rows.len() + 1
            &&& forall|i: int| 0 <= i < rows.len() ==> after[i] == rows[i]
            &&& object == find_by_id(rows, follow.object)
            &&& last == after
            &&& dereference_spec(after, follow.actor, later_fetch, later) == (
                find_by_id(after, follow.actor),
                after,
            )
            &&& find_by_id(after, follow.actor) is Ok
            &&& recorded.contains((follow.actor, follow.object))
            &&& with_edge(recorded, (follow.actor, follow.object)) == recorded
            &&& origin_verdict(url_host(follow.actor), origin) is Ok ==> forall|
                a: DbUser,
                o: DbUser,
            | #[trigger]
                receive_outcome(follow, origin, Ok(a), Ok(o)) == Ok::<(), FederationError>(())
        }),
{
    let input = from_wire_spec(doc, at);
    let after = upsert_rows(rows, input);
    lemma_resolved_actor_is_known(rows, doc, at, later_fetch, later);
    lemma_upsert_keeps_valid(rows, input);
    lemma_record_is_idempotent(edges, (follow.actor, follow.object));
    if position(rows, doc.id) is Some {
        let k = position(rows, doc.id)->0;
        assert(has_id_at(rows, doc.id, k));
    }
    let k = position(rows, follow.object)->0;
    assert(has_id_at(rows, follow.object, k));
    lemma_upsert_keeps_others(rows, input, k);
    assert(has_id_at(after, follow.object, k));
    lemma_position_is(after, follow.object, k);
    lemma_position_is(rows, follow.object, k);
}

impl Follow {
    /// Makes the request from the serializations of its three identifiers.
    /// One that is missing makes the input malformed.
    pub fn from_parts(actor: Option<String>, object: Option<String>, id: Option<String>) -> (r:
        Result<Follow, FederationError>)
        ensures
            follow_view(r) == follow_of(opt_text(actor), opt_text(object), opt_text(id)),
    {
        match (actor, object, id) {
            (Some(actor), Some(object), Some(id)) => Ok(
                Follow { actor, object, kind: FollowType::Follow, id },
            ),
            _ => Err(FederationError::MalformedInput),
        }
    }

    /// Reads a request: `actor` asks to follow `object`, in the activity `id`.
    /// Each of the three has to be an absolute URI, and is kept as serialized;
    /// otherwise the input is malformed.
    pub fn new(actor: &str, object: &str, id: &str) -> (r: Result<Follow, FederationError>)
        ensures
            follow_view(r) == follow_of(url_text(actor@), url_text(object@), url_text(id@)),
    {
        let actor = parse_url(actor);
        let object = parse_url(object);
        let id = parse_url(id);
        Follow::from_parts(actor, object, id)
    }

    pub fn id(&self) -> (r: &str)
        ensures
            r@ == self@.id,
    {
        self.id.as_str()
    }

    pub fn actor(&self) -> (r: &str)
        ensures
            r@ == self@.actor,
    {
        self.actor.as_str()
    }

    /// Checks that the follower this request names is hosted at `origin`, the
    /// host the request came from.
    pub fn verify(&self, origin: &str) -> (r: Result<(), FederationError>)
        ensures
            r == origin_verdict(url_host(self@.actor), origin@),
    {
        verify_origin(self.actor.as_str(), origin)
    }

    /// Takes this request through the whole handshake, given how the resolver
    /// fared with its two parties, and puts the relationship on record in
    /// `graph`. The request succeeds where both parties were resolved and the
    /// follower is hosted at `origin`; the relationship is then on record,
    /// once, whether or not it was before. Where the request fails nothing is
    /// recorded.
    pub fn receive(
        self,
        origin: &str,
        actor: Result<DbUser, FederationError>,
        object: Result<DbUser, FederationError>,
        graph: &mut Relationships,
    ) -> (r: Result<(), FederationError>)
        ensures
            r == receive_outcome(self@, origin@, actor, object),
            final(graph)@ == (if r is Ok {
                with_edge(old(graph)@, (self@.actor, self@.object))
            } else {
                old(graph)@
            }),
    {
        let mut handshake = Handshake::new(self, origin.to_owned());
        let _ = handshake.advance(HandshakeEvent::Proceed);
        let _ = handshake.advance(HandshakeEvent::Resolved { actor, object });
        match handshake.advance(HandshakeEvent::Proceed) {
            HandshakeAction::Persist { follower, followed } => {
                graph.record(follower, followed);
                let _ = handshake.advance(HandshakeEvent::Persisted(Ok(())));
                Ok(())
            },
            _ => match handshake.state() {
                HandshakeState::Failed(e) => Err(e),
                _ => unreached(),
            },
        }
    }
}

} // verus!
