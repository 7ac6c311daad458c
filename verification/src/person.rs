//! The public document of an actor.

use vstd::prelude::*;
use vstd::string::*;

verus! {

/// The one kind of actor document this node writes and reads.
#[derive(Clone, Copy, Debug, PartialEq, Eq, Structural)]
pub enum PersonType {
    Person,
}

impl PersonType {
    /// The word that stands for the kind in a document.
    pub fn as_str(self) -> (r: &'static str)
        ensures
            r@ == "Person"@,
    {
        "Person"
    }
}

/// The key by which an actor's signatures are checked.
#[derive(Debug, PartialEq, Eq)]
pub struct PublicKey {
    /// The identifier of the key.
    pub id: String,
    /// The identifier of the actor the key belongs to.
    pub owner: String,
    /// The key itself, in PEM format.
    pub public_key_pem: String,
}

/// A `PublicKey` as the contracts see it.
pub struct PublicKeyView {
    pub id: Seq<char>,
    pub owner: Seq<char>,
    pub public_key_pem: Seq<char>,
}

impl View for PublicKey {
    type V = PublicKeyView;

    open spec fn view(&self) -> PublicKeyView {
        PublicKeyView { id: self.id@, owner: self.owner@, public_key_pem: self.public_key_pem@ }
    }
}

/// The identifier of the main key of the actor `owner`.
pub open spec fn main_key_id(owner: Seq<char>) -> Seq<char> {
    owner + "#main-key"@
}

impl PublicKey {
    /// The main key of the actor `owner`.
    pub open spec fn spec_new(owner: Seq<char>, public_key_pem: Seq<char>) -> PublicKeyView {
        PublicKeyView { id: main_key_id(owner), owner, public_key_pem }
    }

    /// The key `public_key_pem` of the actor `owner`, under the identifier that
    /// the owner's main key has by convention: the owner's, then `#main-key`.
    pub fn new(owner: String, public_key_pem: String) -> (key: PublicKey)
        ensures
            key@ == PublicKey::spec_new(owner@, public_key_pem@),
    {
        let id = owner.clone().concat("#main-key");
        PublicKey { id, owner, public_key_pem }
    }
}

impl Clone for PublicKey {
    fn clone(&self) -> (r: Self)
        ensures
            r@ == self@,
    {
        PublicKey {
            id: self.id.clone(),
            owner: self.owner.clone(),
            public_key_pem: self.public_key_pem.clone(),
        }
    }
}

/// The document by which an actor is known to other nodes.
#[derive(Debug, PartialEq, Eq)]
pub struct Person {
    pub id: String,
    pub kind: PersonType,
    /// The label shown to people.
    pub preferred_username: String,
    /// The handle.
    pub name: String,
    pub inbox: String,
    pub outbox: String,
    pub public_key: PublicKey,
}

/// A `Person` as the contracts see it.
pub struct PersonView {
    pub id: Seq<char>,
    pub kind: PersonType,
    pub preferred_username: Seq<char>,
    pub name: Seq<char>,
    pub inbox: Seq<char>,
    pub outbox: Seq<char>,
    pub public_key: PublicKeyView,
}

impl View for Person {
    type V = PersonView;

    open spec fn view(&self) -> PersonView {
        PersonView {
            id: self.id@,
            kind: self.kind,
            preferred_username: self.preferred_username@,
            name: self.name@,
            inbox: self.inbox@,
            outbox: self.outbox@,
            public_key: self.public_key@,
        }
    }
}

impl PersonView {
    /// Whether the document holds a public key: one without is the document
    /// of no actor.
    pub open spec fn has_public_key(self) -> bool {
        self.public_key.public_key_pem.len() > 0
    }
}

impl Person {
    /// Tests what `PersonView::has_public_key` states.
    pub fn has_public_key(&self) -> (r: bool)
        ensures
            r == self@.has_public_key(),
    {
        !self.public_key.public_key_pem.as_str().is_empty()
    }
}

impl Clone for Person {
    fn clone(&self) -> (r: Self)
        ensures
            r@ == self@,
    {
        Person {
            id: self.id.clone(),
            kind: self.kind,
            preferred_username: self.preferred_username.clone(),
            name: self.name.clone(),
            inbox: self.inbox.clone(),
            outbox: self.outbox.clone(),
            public_key: self.public_key.clone(),
        }
    }
}

} // verus!
