//! What the node answers to the requests of its three routes, short of the
//! transport: each function takes what was read off a request and returns what
//! is to be written back, or the status the request fails with.

use vstd::prelude::*;

use crate::database::{document_view, found_view, to_wire_spec, DatabaseTrait};
use crate::error::{FederationError, Status};
use crate::models::{ActorView, DbUser};
use crate::person::{Person, PersonView};
use crate::text::{opt_text, same_text};
use crate::urls::{parse_url, url_text};

verus! {

/// The content type in which actors are served.
pub open spec fn federation_content_type() -> Seq<char> {
    "application/activity+json"@
}

/// Whether a request that sent the header `accept` asks for an actor
/// document.
pub open spec fn accepts_federation(accept: Option<Seq<char>>) -> bool {
    accept == Some(federation_content_type())
}

/// What a request for a local actor is answered, given what the store
/// answered to the lookup: the actor's document; the status of the store's
/// failure; or an internal error where the actor's record has no document.
pub open spec fn user_response(found: Result<ActorView, FederationError>) -> Result<
    PersonView,
    Status,
> {
    match found {
        Ok(a) => match to_wire_spec(a) {
            Some(p) => Ok(p),
            None => Err(Status::InternalServerError),
        },
        Err(e) => Err(e.spec_status()),
    }
}

/// The view of an answer that carries a document.
pub open spec fn response_view(r: Result<Person, Status>) -> Result<PersonView, Status> {
    match r {
        Ok(p) => Ok(p@),
        Err(s) => Err(s),
    }
}

/// The view of the header of a request.
pub open spec fn header_view(accept: Option<&str>) -> Option<Seq<char>> {
    match accept {
        Some(a) => Some(a@),
        None => None,
    }
}

/// Tests what `accepts_federation` states.
pub fn is_federation_request(accept: Option<&str>) -> (r: bool)
    ensures
        r == accepts_federation(header_view(accept)),
{
    match accept {
        Some(a) => same_text(a, "application/activity+json"),
        None => false,
    }
}

/// Answers a request for a local actor from what the store answered to the
/// lookup.
pub fn respond_with_user(found: Result<DbUser, FederationError>) -> (r: Result<Person, Status>)
    ensures
        response_view(r) == user_response(found_view(found)),
{
    match found {
        Ok(db_user) => match db_user.into_json() {
            Ok(json_user) => Ok(json_user),
            Err(_) => Err(Status::InternalServerError),
        },
        Err(e) => Err(e.status()),
    }
}

/// Answers `GET /<name>`. A request that does not ask for an actor document
/// is a bad request, and the store is not asked. Any other is answered as
/// `user_response` says, from what the store answers to the lookup of the
/// local actor `name`.
pub fn http_get_user<S: DatabaseTrait<DbUser, FederationError>>(
    accept: Option<&str>,
    name: &str,
    data: &S,
) -> (r: Result<Person, Status>)
    ensures
        !accepts_federation(header_view(accept)) ==> r == Err::<Person, Status>(Status::BadRequest),
        accepts_federation(header_view(accept)) ==> exists|found: Result<DbUser, FederationError>|
            #[trigger] call_ensures(S::read_local_user, (data, name), found) && response_view(r)
                == user_response(found_view(found)),
{
    if is_federation_request(accept) {
        let found = data.read_local_user(name);
        respond_with_user(found)
    } else {
        Err(Status::BadRequest)
    }
}

/// The query of a webfinger request.
#[derive(Debug, PartialEq, Eq)]
pub struct WebfingerQuery {
    pub resource: String,
}

/// What a webfinger request is answered: the resource that was asked for, and
/// where the actor behind it is found.
#[derive(Debug, PartialEq, Eq)]
pub struct Webfinger {
    pub subject: String,
    pub href: String,
}

/// A `Webfinger` as the contracts see it.
pub struct WebfingerView {
    pub subject: Seq<char>,
    pub href: Seq<char>,
}

impl View for Webfinger {
    type V = WebfingerView;

    open spec fn view(&self) -> WebfingerView {
        WebfingerView { subject: self.subject@, href: self.href@ }
    }
}

/// What a webfinger request for `resource` is answered, given what the store
/// answered to the lookup: the federation identifier of the actor, as
/// serialized; the status of the store's failure; or a miss where the
/// actor's federation identifier is no URI.
pub open spec fn webfinger_response(
    resource: Seq<char>,
    found: Result<ActorView, FederationError>,
) -> Result<WebfingerView, Status> {
    match found {
        Ok(a) => match url_text(a.federation_id) {
            Some(href) => Ok(WebfingerView { subject: resource, href }),
            None => Err(Status::NotFound),
        },
        Err(e) => Err(e.spec_status()),
    }
}

/// The view of a webfinger answer.
pub open spec fn webfinger_view(r: Result<Webfinger, Status>) -> Result<WebfingerView, Status> {
    match r {
        Ok(w) => Ok(w@),
        Err(s) => Err(s),
    }
}

/// Writes the webfinger answer from the actor that was found and the
/// serialization of its federation identifier.
pub fn link_to(resource: &str, federation_id: Option<String>) -> (r: Result<Webfinger, Status>)
    ensures
        webfinger_view(r) == (match federation_id {
            Some(href) => Ok(WebfingerView { subject: resource@, href: href@ }),
            None => Err(Status::NotFound),
        }),
{
    match federation_id {
        Some(href) => Ok(Webfinger { subject: resource.to_owned(), href }),
        None => Err(Status::NotFound),
    }
}

/// Answers a webfinger request from what the store answered to the lookup.
pub fn respond_with_link(resource: &str, found: Result<DbUser, FederationError>) -> (r: Result<
    Webfinger,
    Status,
>)
    ensures
        webfinger_view(r) == webfinger_response(resource@, found_view(found)),
{
    match found {
        Ok(db_user) => {
            let federation_id = parse_url(db_user.federation_id.as_str());
            link_to(resource, federation_id)
        },
        Err(e) => Err(e.status()),
    }
}

/// Answers `GET /.well-known/webfinger`. `name` is the handle that was read
/// out of the resource the query names, or `None` where the resource has not
/// the form of an account of this node: that is a bad request, and the store
/// is not asked. Any other request is answered as `webfinger_response` says,
/// from what the store answers to the lookup of the local actor `name`.
pub fn webfinger<S: DatabaseTrait<DbUser, FederationError>>(
    query: &WebfingerQuery,
    name: Option<&str>,
    data: &S,
) -> (r: Result<Webfinger, Status>)
    ensures
        name is None ==> r == Err::<Webfinger, Status>(Status::BadRequest),
        name matches Some(n) ==> exists|found: Result<DbUser, FederationError>|
            #[trigger] call_ensures(S::read_local_user, (data, n), found) && webfinger_view(r)
                == webfinger_response(query.resource@, found_view(found)),
{
    match name {
        Some(n) => {
            let found = data.read_local_user(n);
            respond_with_link(query.resource.as_str(), found)
        },
        None => Err(Status::BadRequest),
    }
}

/// Answers `GET /ping`.
pub fn http_ping() -> (r: &'static str)
    ensures
        r@ == "pong"@,
{
    "pong"
}

} // verus!
