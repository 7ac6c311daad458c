//! The persisted record of an actor.

use vstd::prelude::*;

use crate::clock::Timestamp;
use crate::text::opt_text;

verus! {

/// One identity, local or remote, as the store holds it.
#[derive(Debug, PartialEq, Eq)]
pub struct DbUser {
    /// The local handle. It means something for local actors only.
    pub name: String,
    /// The label shown to people.
    pub display_name: String,
    pub password_hash: Option<String>,
    pub email: Option<String>,
    /// The canonical external URI of the actor.
    pub federation_id: String,
    pub inbox: String,
    pub outbox: String,
    /// Whether this node owns the actor.
    pub local: bool,
    pub public_key: String,
    pub private_key: Option<String>,
    /// When the record was last written from a fetched document.
    pub last_refreshed_at: Timestamp,
    /// The identifier: a URI, and the key of the record.
    pub id: String,
    /// The place of the record in storage order. The store assigns it.
    pub idx: i32,
}

/// A `DbUser` as the contracts see it.
pub struct ActorView {
    pub name: Seq<char>,
    pub display_name: Seq<char>,
    pub password_hash: Option<Seq<char>>,
    pub email: Option<Seq<char>>,
    pub federation_id: Seq<char>,
    pub inbox: Seq<char>,
    pub outbox: Seq<char>,
    pub local: bool,
    pub public_key: Seq<char>,
    pub private_key: Option<Seq<char>>,
    pub last_refreshed_at: Timestamp,
    pub id: Seq<char>,
    pub idx: i32,
}

impl View for DbUser {
    type V = ActorView;

    open spec fn view(&self) -> ActorView {
        ActorView {
            name: self.name@,
            display_name: self.display_name@,
            password_hash: opt_text(self.password_hash),
            email: opt_text(self.email),
            federation_id: self.federation_id@,
            inbox: self.inbox@,
            outbox: self.outbox@,
            local: self.local,
            public_key: self.public_key@,
            private_key: opt_text(self.private_key),
            last_refreshed_at: self.last_refreshed_at,
            id: self.id@,
            idx: self.idx,
        }
    }
}

impl ActorView {
    /// The record with another place in storage order.
    pub open spec fn with_idx(self, idx: i32) -> ActorView {
        ActorView { idx, ..self }
    }

    /// What holds of every sound record: it has a public key, and one of a
    /// remote actor carries neither a private key nor credentials.
    pub open spec fn well_formed(self) -> bool {
        &&& self.public_key.len() > 0
        &&& !self.local ==> {
            &&& self.private_key is None
            &&& self.password_hash is None
            &&& self.email is None
        }
    }

    /// Whether the record is the local actor with the handle `name`.
    pub open spec fn is_local_named(self, name: Seq<char>) -> bool {
        self.local && self.name == name
    }
}

impl Clone for DbUser {
    fn clone(&self) -> (r: Self)
        ensures
            r@ == self@,
    {
        DbUser {
            name: self.name.clone(),
            display_name: self.display_name.clone(),
            password_hash: self.password_hash.clone(),
            email: self.email.clone(),
            federation_id: self.federation_id.clone(),
            inbox: self.inbox.clone(),
            outbox: self.outbox.clone(),
            local: self.local,
            public_key: self.public_key.clone(),
            private_key: self.private_key.clone(),
            last_refreshed_at: self.last_refreshed_at,
            id: self.id.clone(),
            idx: self.idx,
        }
    }
}

impl DbUser {
    /// Tests what `ActorView::well_formed` states.
    pub fn is_well_formed(&self) -> (r: bool)
        ensures
            r == self@.well_formed(),
    {
        !self.public_key.as_str().is_empty() && (self.local || (self.private_key.is_none()
            && self.password_hash.is_none() && self.email.is_none()))
    }
}

} // verus!
