//! A store that keeps its rows in memory, in the order in which they came.

use vstd::prelude::*;

use crate::clock::Timestamp;
use crate::database::{found_view, from_wire_spec, DatabaseTrait};
use crate::error::FederationError;
use crate::models::{ActorView, DbUser};
use crate::person::PersonView;

verus! {

/// What holds of the rows of a store: no identifier occurs twice, each row
/// knows its place, and each row is a sound record.
pub open spec fn valid_rows(rows: Seq<ActorView>) -> bool {
    &&& forall|i: int, j: int| 0 <= i < j < rows.len() ==> rows[i].id != rows[j].id
    &&& forall|i: int| 0 <= i < rows.len() ==> rows[i].idx == i
    &&& forall|i: int| 0 <= i < rows.len() ==> rows[i].well_formed()
}

/// Whether the row at `i` has the identifier `id`.
pub open spec fn has_id_at(rows: Seq<ActorView>, id: Seq<char>, i: int) -> bool {
    0 <= i < rows.len() && rows[i].id == id
}

/// Where the row with the identifier `id` stands, if there is one.
pub open spec fn position(rows: Seq<ActorView>, id: Seq<char>) -> Option<int> {
    if exists|i: int| has_id_at(rows, id, i) {
        Some(choose|i: int| has_id_at(rows, id, i))
    } else {
        None
    }
}

/// The answer to a lookup by identifier.
pub open spec fn find_by_id(rows: Seq<ActorView>, id: Seq<char>) -> Result<
    ActorView,
    FederationError,
> {
    match position(rows, id) {
        Some(i) => Ok(rows[i]),
        None => Err(FederationError::NotFound),
    }
}

/// Whether the row at `i` is the only local actor with the handle `name`.
pub open spec fn only_local_at(rows: Seq<ActorView>, name: Seq<char>, i: int) -> bool {
    &&& 0 <= i < rows.len()
    &&& rows[i].is_local_named(name)
    &&& forall|j: int| 0 <= j < rows.len() && rows[j].is_local_named(name) ==> j == i
}

/// Whether no row is a local actor with the handle `name`.
pub open spec fn no_local(rows: Seq<ActorView>, name: Seq<char>) -> bool {
    forall|i: int| 0 <= i < rows.len() ==> !rows[i].is_local_named(name)
}

/// The answer to a lookup by local handle: the one local actor of that name;
/// a miss where there is none; a storage error where there are several, which
/// the rules of the store forbid.
pub open spec fn find_local(rows: Seq<ActorView>, name: Seq<char>) -> Result<
    ActorView,
    FederationError,
> {
    if no_local(rows, name) {
        Err(FederationError::NotFound)
    } else if exists|i: int| only_local_at(rows, name, i) {
        Ok(rows[choose|i: int| only_local_at(rows, name, i)])
    } else {
        Err(FederationError::StorageError)
    }
}

/// Whether the store takes `a` in: `a` is a sound record, and its identifier
/// is known or there is a place left to assign.
pub open spec fn takes_in(rows: Seq<ActorView>, a: ActorView) -> bool {
    a.well_formed() && (position(rows, a.id) is Some || rows.len() <= i32::MAX)
}

/// The rows after an upsert of `a`. Where the store takes `a` in, the row with
/// its identifier is overwritten where it stands, and keeps its place; without
/// such a row `a` is appended at the next place. Nothing changes where the
/// store does not take `a` in.
pub open spec fn upsert_rows(rows: Seq<ActorView>, a: ActorView) -> Seq<ActorView> {
    if takes_in(rows, a) {
        match position(rows, a.id) {
            Some(i) => rows.update(i, a.with_idx(rows[i].idx)),
            None => rows.push(a.with_idx(rows.len() as i32)),
        }
    } else {
        rows
    }
}

/// What an upsert of `a` reports: one row touched, or a storage error where
/// the store does not take `a` in: a record that is not sound would break the
/// rules of the store, and so would a row without a place.
pub open spec fn upsert_report(rows: Seq<ActorView>, a: ActorView) -> Result<
    usize,
    FederationError,
> {
    if takes_in(rows, a) {
        Ok(1)
    } else {
        Err(FederationError::StorageError)
    }
}

/// Among valid rows an identifier stands at one place only.
pub proof fn lemma_position_is(rows: Seq<ActorView>, id: Seq<char>, i: int)
    requires
        valid_rows(rows),
        has_id_at(rows, id, i),
    ensures
        position(rows, id) == Some(i),
{
    let k = choose|k: int| has_id_at(rows, id, k);
    assert(has_id_at(rows, id, k));
    if k < i {
        assert(rows[k].id != rows[i].id);
    } else if i < k {
        assert(rows[i].id != rows[k].id);
    }
}

/// An upsert keeps the rows valid.
pub proof fn lemma_upsert_keeps_valid(rows: Seq<ActorView>, a: ActorView)
    requires
        valid_rows(rows),
    ensures
        valid_rows(upsert_rows(rows, a)),
{
    let after = upsert_rows(rows, a);
    if takes_in(rows, a) {
        match position(rows, a.id) {
            Some(i) => {
                assert(has_id_at(rows, a.id, i));
                assert forall|x: int, y: int| 0 <= x < y < after.len() implies after[x].id
                    != after[y].id by {
                    assert(rows[x].id != rows[y].id);
                }
                assert forall|x: int| 0 <= x < after.len() implies after[x].well_formed() by {
                    if x != i {
                        assert(rows[x].well_formed());
                    }
                }
            },
            None => {
                assert forall|x: int, y: int| 0 <= x < y < after.len() implies after[x].id
                    != after[y].id by {
                    if y == rows.len() {
                        assert(!has_id_at(rows, a.id, x));
                    } else {
                        assert(rows[x].id != rows[y].id);
                    }
                }
                assert forall|x: int| 0 <= x < after.len() implies after[x].well_formed() by {
                    if x < rows.len() {
                        assert(rows[x].well_formed());
                    }
                }
            },
        }
    }
}

/// After an upsert of `a` a lookup by its identifier finds what `a` holds, at
/// the place the store gave it.
pub proof fn lemma_upsert_then_find(rows: Seq<ActorView>, a: ActorView)
    requires
        valid_rows(rows),
        takes_in(rows, a),
    ensures
        find_by_id(upsert_rows(rows, a), a.id) matches Ok(row) && row.with_idx(a.idx) == a,
{
    let after = upsert_rows(rows, a);
    lemma_upsert_keeps_valid(rows, a);
    match position(rows, a.id) {
        Some(i) => {
            assert(has_id_at(rows, a.id, i));
            assert(has_id_at(after, a.id, i));
            lemma_position_is(after, a.id, i);
        },
        None => {
            let i = rows.len() as int;
            assert(has_id_at(after, a.id, i));
            lemma_position_is(after, a.id, i);
        },
    }
}

/// An upsert leaves the rows with other identifiers as they were, each at its
/// place.
pub proof fn lemma_upsert_keeps_others(rows: Seq<ActorView>, a: ActorView, i: int)
    requires
        0 <= i < rows.len(),
        rows[i].id != a.id,
    ensures
        i < upsert_rows(rows, a).len(),
        upsert_rows(rows, a)[i] == rows[i],
{
    match position(rows, a.id) {
        Some(k) => {
            assert(has_id_at(rows, a.id, k));
        },
        None => {},
    }
}

/// Whether the record `a` holds what the document `p` holds.
pub open spec fn holds_document(a: ActorView, p: PersonView) -> bool {
    &&& a.id == p.id
    &&& a.name == p.name
    &&& a.display_name == p.preferred_username
    &&& a.inbox == p.inbox
    &&& a.outbox == p.outbox
    &&& a.public_key == p.public_key.public_key_pem
}

/// Whether the row at `i` is the only one with the identifier `id`.
pub open spec fn only_id_at(rows: Seq<ActorView>, id: Seq<char>, i: int) -> bool {
    has_id_at(rows, id, i) && forall|j: int| has_id_at(rows, id, j) ==> j == i
}

/// Taking the same document in twice, at whatever times, is as good as taking
/// it in once: both upserts touch one row, the second adds none, and the store
/// ends with exactly one row for the document, which holds what the document
/// holds. (A store takes in neither a document without a public key nor, with
/// no place left, a document it does not know.)
pub proof fn lemma_upsert_twice(
    rows: Seq<ActorView>,
    doc: PersonView,
    first: Timestamp,
    second: Timestamp,
)
    requires
        valid_rows(rows),
        takes_in(rows, from_wire_spec(doc, first)),
    ensures
        ({
            let once = upsert_rows(rows, from_wire_spec(doc, first));
            let twice = upsert_rows(once, from_wire_spec(doc, second));
            &&& upsert_report(rows, from_wire_spec(doc, first)) == Ok::<usize, FederationError>(1)
            &&& upsert_report(once, from_wire_spec(doc, second)) == Ok::<usize, FederationError>(
                1,
            )
            &&& valid_rows(twice)
            &&& twice.len() == once.len()
            &&& exists|i: int| only_id_at(twice, doc.id, i) && holds_document(twice[i], doc)
        }),
{
    let a1 = from_wire_spec(doc, first);
    let a2 = from_wire_spec(doc, second);
    let once = upsert_rows(rows, a1);
    let twice = upsert_rows(once, a2);
    lemma_upsert_keeps_valid(rows, a1);
    lemma_upsert_keeps_valid(once, a2);
    let i = match position(rows, doc.id) {
        Some(k) => k,
        None => rows.len() as int,
    };
    if position(rows, doc.id) is Some {
        assert(has_id_at(rows, doc.id, i));
    }
    assert(has_id_at(once, doc.id, i));
    lemma_position_is(once, doc.id, i);
    assert(has_id_at(twice, doc.id, i));
    assert forall|j: int| has_id_at(twice, doc.id, j) implies j == i by {
        if j < i {
            assert(twice[j].id != twice[i].id);
        } else if i < j {
            assert(twice[i].id != twice[j].id);
        }
    }
    assert(only_id_at(twice, doc.id, i) && holds_document(twice[i], doc));
}

/// Of two upserts under one identifier the later one stays: a lookup finds
/// what it wrote.
pub proof fn lemma_last_upsert_wins(rows: Seq<ActorView>, a: ActorView, b: ActorView)
    requires
        valid_rows(rows),
        takes_in(rows, a),
        b.well_formed(),
        a.id == b.id,
    ensures
        takes_in(upsert_rows(rows, a), b),
        upsert_rows(upsert_rows(rows, a), b).len() == upsert_rows(rows, a).len(),
        find_by_id(upsert_rows(upsert_rows(rows, a), b), b.id) matches Ok(row) && row.with_idx(
            b.idx,
        ) == b,
{
    let once = upsert_rows(rows, a);
    lemma_upsert_keeps_valid(rows, a);
    lemma_upsert_then_find(rows, a);
    lemma_upsert_then_find(once, b);
}

/// Whether no two local actors share a handle.
pub open spec fn local_names_unique(rows: Seq<ActorView>) -> bool {
    forall|i: int, j: int|
        0 <= i < j < rows.len() && rows[i].local && rows[j].local ==> rows[i].name != rows[j].name
}

/// Where no two local actors share a handle, a lookup by handle finds the
/// actor or misses it: it never reports a broken store.
pub proof fn lemma_unique_names_find(rows: Seq<ActorView>, name: Seq<char>)
    requires
        local_names_unique(rows),
    ensures
        find_local(rows, name) != Err::<ActorView, FederationError>(FederationError::StorageError),
        find_local(rows, name) matches Ok(a) ==> a.is_local_named(name),
{
    if !no_local(rows, name) {
        let i = choose|i: int| 0 <= i < rows.len() && rows[i].is_local_named(name);
        assert forall|j: int| 0 <= j < rows.len() && rows[j].is_local_named(name) implies j
            == i by {
            if j < i {
                assert(rows[j].name != rows[i].name);
            } else if i < j {
                assert(rows[i].name != rows[j].name);
            }
        }
        assert(only_local_at(rows, name, i));
    }
}

/// Taking a remote actor in adds no local actor: handles that were unique
/// among the local actors stay so.
pub proof fn lemma_remote_upsert_keeps_names(rows: Seq<ActorView>, a: ActorView)
    requires
        local_names_unique(rows),
        !a.local,
    ensures
        local_names_unique(upsert_rows(rows, a)),
{
    let after = upsert_rows(rows, a);
    match position(rows, a.id) {
        Some(k) => {
            assert(has_id_at(rows, a.id, k));
            assert forall|i: int, j: int|
                0 <= i < j < after.len() && after[i].local && after[j].local implies after[i].name
                != after[j].name by {
                assert(rows[i].name != rows[j].name);
            }
        },
        None => {
            assert forall|i: int, j: int|
                0 <= i < j < after.len() && after[i].local && after[j].local implies after[i].name
                != after[j].name by {
                assert(rows[i].name != rows[j].name);
            }
        },
    }
}

/// The rows that a vector of records stands for.
spec fn rows_of(v: Vec<DbUser>) -> Seq<ActorView> {
    Seq::new(v.len() as nat, |i: int| v[i]@)
}

/// A store in memory.
pub struct MemoryDatabase {
    rows: Vec<DbUser>,
}

impl View for MemoryDatabase {
    type V = Seq<ActorView>;

    /// The rows, in storage order.
    closed spec fn view(&self) -> Seq<ActorView> {
        rows_of(self.rows)
    }
}

impl MemoryDatabase {
    #[verifier::type_invariant]
    spec fn sound(self) -> bool {
        valid_rows(self@)
    }

    /// A store without rows.
    pub fn new() -> (db: Self)
        ensures
            db@ == Seq::<ActorView>::empty(),
    {
        MemoryDatabase { rows: Vec::new() }
    }

    /// The number of rows.
    pub fn len(&self) -> (n: usize)
        ensures
            n == self@.len(),
            valid_rows(self@),
    {
        proof {
            use_type_invariant(self);
        }
        self.rows.len()
    }
}

impl DatabaseTrait<DbUser, FederationError> for MemoryDatabase {
    /// Finds the one local actor with the handle `query`. An actor that comes
    /// back is local.
    fn read_local_user(&self, query: &str) -> (r: Result<DbUser, FederationError>)
        ensures
            found_view(r) == find_local(self@, query@),
            r matches Ok(a) ==> a@.local && a@.name == query@,
    {
        let name = query.to_owned();
        let mut hit: Option<usize> = None;
        let mut several = false;
        let mut i: usize = 0;
        while i < self.rows.len()
            invariant
                i <= self.rows.len(),
                name@ == query@,
                hit is None ==> !several && forall|j: int|
                    0 <= j < i ==> !self@[j].is_local_named(query@),
                hit matches Some(h) ==> {
                    &&& h < i
                    &&& self@[h as int].is_local_named(query@)
                    &&& forall|j: int| 0 <= j < h ==> !self@[j].is_local_named(query@)
                    &&& several <==> exists|j: int|
                        h < j < i && self@[j].is_local_named(query@)
                },
            decreases self.rows.len() - i,
        {
            if self.rows[i].local && self.rows[i].name == name {
                assert(self@[i as int].is_local_named(query@));
                match hit {
                    Some(_) => {
                        several = true;
                    },
                    None => {
                        hit = Some(i);
                    },
                }
            }
            i += 1;
        }
        match hit {
            None => {
                assert(no_local(self@, query@));
                Err(FederationError::NotFound)
            },
            Some(h) => {
                if several {
                    assert(!no_local(self@, query@));
                    assert(!exists|k: int| only_local_at(self@, query@, k));
                    Err(FederationError::StorageError)
                } else {
                    assert(only_local_at(self@, query@, h as int));
                    Ok(self.rows[h].clone())
                }
            },
        }
    }

    /// Finds the actor with the identifier `query`.
    fn read_from_id(&self, query: &str) -> (r: Result<DbUser, FederationError>)
        ensures
            found_view(r) == find_by_id(self@, query@),
    {
        proof {
            use_type_invariant(self);
        }
        let id = query.to_owned();
        let mut i: usize = 0;
        while i < self.rows.len()
            invariant
                i <= self.rows.len(),
                id@ == query@,
                valid_rows(self@),
                forall|j: int| 0 <= j < i ==> !has_id_at(self@, query@, j),
            decreases self.rows.len() - i,
        {
            if self.rows[i].id == id {
                proof {
                    lemma_position_is(self@, query@, i as int);
                }
                return Ok(self.rows[i].clone());
            }
            i += 1;
        }
        Err(FederationError::NotFound)
    }

    /// Overwrites the row that has the identifier of `input`, or appends
    /// `input`. The place that `input` names for itself is not read: a row
    /// keeps the place it has, and a new row gets the next one. A record that
    /// is not sound is refused, and the rows stay as they are.
    fn from_json(&mut self, input: &DbUser) -> (r: Result<usize, FederationError>)
        ensures
            final(self)@ == upsert_rows(old(self)@, input@),
            r == upsert_report(old(self)@, input@),
            valid_rows(final(self)@),
    {
        proof {
            use_type_invariant(&*self);
        }
        if !input.is_well_formed() {
            return Err(FederationError::StorageError);
        }
        let mut i: usize = 0;
        while i < self.rows.len()
            invariant
                i <= self.rows.len(),
                self@ == old(self)@,
                valid_rows(self@),
                input@.well_formed(),
                forall|j: int| 0 <= j < i ==> !has_id_at(self@, input@.id, j),
            decreases self.rows.len() - i,
        {
            if self.rows[i].id == input.id {
                proof {
                    lemma_position_is(self@, input@.id, i as int);
                }
                let mut row = input.clone();
                row.idx = self.rows[i].idx;
                let mut rows: Vec<DbUser> = Vec::new();
                std::mem::swap(&mut self.rows, &mut rows);
                rows.set(i, row);
                proof {
                    assert(rows_of(rows) =~= upsert_rows(old(self)@, input@));
                    lemma_upsert_keeps_valid(old(self)@, input@);
                }
                self.rows = rows;
                return Ok(1);
            }
            i += 1;
        }
        if self.rows.len() > i32::MAX as usize {
            return Err(FederationError::StorageError);
        }
        let mut row = input.clone();
        row.idx = self.rows.len() as i32;
        let mut rows: Vec<DbUser> = Vec::new();
        std::mem::swap(&mut self.rows, &mut rows);
        rows.push(row);
        proof {
            assert(rows_of(rows) =~= upsert_rows(old(self)@, input@));
            lemma_upsert_keeps_valid(old(self)@, input@);
        }
        self.rows = rows;
        Ok(1)
    }
}

} // verus!
