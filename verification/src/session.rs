//! Session acquisition: the login request for a controller, and the token
//! that its response carries.

use crate::json::{json_data, json_of_text, member, member_of, parse_value, JsonData};
use crate::request::{endpoint, endpoint_url, Method, Request, RequestData};
use vstd::prelude::*;

verus! {

/// The path of the login endpoint.
pub const LOGIN_PATH: &'static str = "/redfish/v1/SessionService/Sessions";

/// The body of every login request: the fixed credentials as a JSON object.
pub const LOGIN_BODY: &'static str = "{\"UserName\":\"admin\",\"Password\":\"admin\"}";

/// The URL of the login endpoint of the controller at `address`.
pub open spec fn login_url(address: Seq<char>) -> Seq<char> {
    endpoint(address, LOGIN_PATH@)
}

/// The login request for the controller at `address`: a POST of the
/// credentials, declared as JSON.
pub open spec fn login_request_for(address: Seq<char>) -> RequestData {
    RequestData {
        method: Method::Post,
        url: login_url(address),
        headers: seq![("Content-Type"@, "application/json"@)],
        body: Some(LOGIN_BODY@),
    }
}

/// Builds the login request for the controller at `address`.
pub fn login_request(address: &str) -> (request: Request)
    ensures
        request@ == login_request_for(address@),
{
    let url = endpoint_url(address, LOGIN_PATH);
    let mut headers: Vec<(String, String)> = Vec::new();
    headers.push(("Content-Type".to_owned(), "application/json".to_owned()));
    let request = Request {
        method: Method::Post,
        url,
        headers,
        body: Some(LOGIN_BODY.to_owned()),
    };
    assert(request@.headers =~= login_request_for(address@).headers);
    request
}

/// The login request for each address, in the order of the addresses.
pub fn login_requests(addresses: &Vec<String>) -> (requests: Vec<Request>)
    ensures
        requests@.len() == addresses@.len(),
        forall|i: int|
            0 <= i < addresses@.len() ==> (#[trigger] requests@[i])@ == login_request_for(
                addresses@[i]@,
            ),
{
    let mut requests: Vec<Request> = Vec::new();
    let mut i: usize = 0;
    while i < addresses.len()
        invariant
            i <= addresses@.len(),
            requests@.len() == i,
            forall|k: int|
                0 <= k < i ==> (#[trigger] requests@[k])@ == login_request_for(addresses@[k]@),
        decreases addresses@.len() - i,
    {
        requests.push(login_request(addresses[i].as_str()));
        i += 1;
    }
    requests
}

/// The token that a login response document carries: its string member
/// `X-Auth-Token` inside `Public` inside `Oem`. Where any of the three is
/// missing, or the last is no string, the token is empty.
pub open spec fn token_in(doc: JsonData) -> Seq<char> {
    match member_of(doc, "Oem"@) {
        Some(oem) => match member_of(oem, "Public"@) {
            Some(public) => match member_of(public, "X-Auth-Token"@) {
                Some(JsonData::Text(token)) => token,
                _ => Seq::empty(),
            },
            None => Seq::empty(),
        },
        None => Seq::empty(),
    }
}

/// The token that a login response body gives: the token in the document it
/// parses to, and the empty token where it is no JSON document.
pub open spec fn token_of_body(body: Seq<char>) -> Seq<char> {
    match json_of_text(body) {
        Some(doc) => token_in(doc),
        None => Seq::empty(),
    }
}

/// Reads the token out of a parsed login response.
pub fn token_from_json(doc: &serde_json::Value) -> (token: String)
    ensures
        token@ == token_in(json_data(*doc)),
{
    let oem = match member(doc, "Oem") {
        Some(oem) => oem,
        None => {
            return String::new();
        },
    };
    let public = match member(oem, "Public") {
        Some(public) => public,
        None => {
            return String::new();
        },
    };
    let token = match member(public, "X-Auth-Token") {
        Some(token) => token,
        None => {
            return String::new();
        },
    };
    match token.as_str() {
        Some(text) => text.to_owned(),
        None => String::new(),
    }
}

/// Parses a login response body and reads the token out of it. A body that
/// cannot be used gives the empty token, never an error.
pub fn token_from_body(body: &str) -> (token: String)
    ensures
        token@ == token_of_body(body@),
{
    match parse_value(body) {
        Ok(doc) => token_from_json(&doc),
        Err(_) => String::new(),
    }
}

/// The token of each login response body: as many tokens as bodies, each at
/// the index of its body.
pub fn tokens_from_bodies(bodies: &Vec<String>) -> (tokens: Vec<String>)
    ensures
        tokens@.len() == bodies@.len(),
        forall|i: int|
            0 <= i < bodies@.len() ==> (#[trigger] tokens@[i])@ == token_of_body(bodies@[i]@),
{
    let mut tokens: Vec<String> = Vec::new();
    let mut i: usize = 0;
    while i < bodies.len()
        invariant
            i <= bodies@.len(),
            tokens@.len() == i,
            forall|k: int| 0 <= k < i ==> (#[trigger] tokens@[k])@ == token_of_body(bodies@[k]@),
        decreases bodies@.len() - i,
    {
        tokens.push(token_from_body(bodies[i].as_str()));
        i += 1;
    }
    tokens
}

} // verus!
