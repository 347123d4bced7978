//! Request handlers: the computation behind each route.
//!
//! Each handler turns registry state (and, where a route has one, a raw
//! path segment) into a status code and a JSON body. The network server
//! that routes requests and performs the I/O sits outside this crate
//! and calls straight into these functions.

use vstd::prelude::*;
use crate::json::{user_json, user_to_json, users_json, users_to_json};
use crate::parse::{digits_value, parse_user_id, valid_id_segment};
use crate::registry::{contains_id, Registry, User};

verus! {

/// A computed response: a status code and a JSON body.
pub struct HttpResponse {
    pub status: u16,
    pub body: String,
}

/// The body of the root route: service description and endpoint list.
pub open spec fn root_json() -> Seq<char> {
    "{\"message\":\"Welcome to Instagram Backend!\",\"status\":\"running\",\"endpoints\":[\"/users\",\"/users/:id\",\"/health\"]}"@
}

/// The body of the health route.
pub open spec fn health_json() -> Seq<char> {
    "{\"status\":\"healthy\",\"service\":\"instagram_backend\"}"@
}

/// The body reported for a path segment that is no identifier.
pub open spec fn invalid_id_json() -> Seq<char> {
    "{\"error\":\"invalid user id\"}"@
}

/// The body reported for an identifier with no record.
pub open spec fn user_not_found_json() -> Seq<char> {
    "{\"error\":\"user not found\"}"@
}

/// The body reported when the identifier counter is exhausted.
pub open spec fn capacity_json() -> Seq<char> {
    "{\"error\":\"capacity exceeded\"}"@
}

/// The body confirming a deletion.
pub open spec fn deleted_json() -> Seq<char> {
    "{\"status\":\"deleted\"}"@
}

/// The root route: a static description of the service, independent of
/// registry state.
pub fn hello_world() -> (r: String)
    ensures
        r@ == root_json(),
{
    "{\"message\":\"Welcome to Instagram Backend!\",\"status\":\"running\",\"endpoints\":[\"/users\",\"/users/:id\",\"/health\"]}".to_owned()
}

/// The health route: a fixed body, independent of registry state.
pub fn health_check() -> (r: String)
    ensures
        r@ == health_json(),
{
    "{\"status\":\"healthy\",\"service\":\"instagram_backend\"}".to_owned()
}

/// The user-listing route: every current record as a JSON array, in
/// insertion order. Never fails; an empty registry yields `[]`.
pub fn get_all_users(reg: &Registry) -> (r: String)
    ensures
        r@ == users_json(reg@),
{
    users_to_json(reg.list())
}

/// The user-lookup route. A malformed segment is a client error; a
/// well-formed identifier with no record is "not found"; otherwise the
/// body is the JSON object of the record stored under that identifier.
pub fn get_user_by_id(reg: &Registry, segment: &str) -> (r: HttpResponse)
    ensures
        !valid_id_segment(segment@) ==> r.status == 400 && r.body@ == invalid_id_json(),
        valid_id_segment(segment@) && !contains_id(reg@, digits_value(segment@) as u32)
            ==> r.status == 404 && r.body@ == user_not_found_json(),
        valid_id_segment(segment@) && contains_id(reg@, digits_value(segment@) as u32)
            ==> r.status == 200 && exists|i: int|
            0 <= i < reg@.len() && (#[trigger] reg@[i]).id == digits_value(segment@) && r.body@
                == user_json(reg@[i]),
    {
    match parse_user_id(segment) {
        Option::None => HttpResponse { status: 400, body: "{\"error\":\"invalid user id\"}".to_owned() },
        Option::Some(id) => match reg.get(id) {
            Option::None => HttpResponse {
                status: 404,
                body: "{\"error\":\"user not found\"}".to_owned(),
            },
            Option::Some(u) => HttpResponse { status: 200, body: user_to_json(u) },
        },
    }
}

/// The user-creation route. On success the status is 201 and the body
/// is the JSON object of the freshly stored record, identifier
/// included; the one failure is an exhausted identifier counter, which
/// leaves the registry unchanged.
pub fn create_user(reg: &mut Registry, username: String, email: String, bio: Option<String>) -> (r:
    HttpResponse)
    requires
        old(reg).wf(),
    ensures
        final(reg).wf(),
        old(reg).next_id() < u32::MAX ==> {
            &&& r.status == 201
            &&& final(reg)@ == old(reg)@.push(
                (User { id: old(reg).next_id(), username, email, bio }),
            )
            &&& r.body@ == user_json((User { id: old(reg).next_id(), username, email, bio }))
            &&& final(reg).next_id() == old(reg).next_id() + 1
        },
        old(reg).next_id() == u32::MAX ==> r.status == 500 && r.body@ == capacity_json()
            && *final(reg) == *old(reg),
{
    match reg.insert(username, email, bio) {
        Result::Ok(_id) => {
            let users = reg.list();
            let body = user_to_json(&users[users.len() - 1]);
            HttpResponse { status: 201, body }
        },
        Result::Err(_) => HttpResponse {
            status: 500,
            body: "{\"error\":\"capacity exceeded\"}".to_owned(),
        },
    }
}

/// The user-deletion route. A malformed segment is a client error; a
/// well-formed identifier with no record is "not found"; otherwise the
/// record is removed and the identifier stays retired for the lifetime
/// of the registry.
pub fn delete_user(reg: &mut Registry, segment: &str) -> (r: HttpResponse)
    requires
        old(reg).wf(),
    ensures
        final(reg).wf(),
        final(reg).next_id() == old(reg).next_id(),
        !valid_id_segment(segment@) ==> r.status == 400 && r.body@ == invalid_id_json()
            && final(reg)@ == old(reg)@,
        valid_id_segment(segment@) && !contains_id(old(reg)@, digits_value(segment@) as u32)
            ==> r.status == 404 && r.body@ == user_not_found_json() && final(reg)@ == old(reg)@,
        valid_id_segment(segment@) && contains_id(old(reg)@, digits_value(segment@) as u32) ==> {
            &&& r.status == 200
            &&& r.body@ == deleted_json()
            &&& final(reg)@.len() == old(reg)@.len() - 1
            &&& !contains_id(final(reg)@, digits_value(segment@) as u32)
            &&& exists|i: int|
                0 <= i < old(reg)@.len() && (#[trigger] old(reg)@[i]).id == digits_value(segment@)
                    && final(reg)@ == old(reg)@.remove(i)
        },
{
    match parse_user_id(segment) {
        Option::None => HttpResponse { status: 400, body: "{\"error\":\"invalid user id\"}".to_owned() },
        Option::Some(id) => {
            if reg.remove(id) {
                HttpResponse { status: 200, body: "{\"status\":\"deleted\"}".to_owned() }
            } else {
                HttpResponse { status: 404, body: "{\"error\":\"user not found\"}".to_owned() }
            }
        },
    }
}

} // verus!
