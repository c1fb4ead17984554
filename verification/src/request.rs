//! HTTP requests as plain data: what to send, left for the caller to send.

use vstd::prelude::*;
use vstd::string::StringExecFns;

verus! {

/// The HTTP method of a request.
#[derive(Clone, Copy, Debug, PartialEq, Eq, Structural)]
pub enum Method {
    Get,
    Post,
}

/// One HTTPS request to a controller.
#[derive(Debug)]
pub struct Request {
    pub method: Method,
    pub url: String,
    /// Header names with their values, in the order in which they are set.
    pub headers: Vec<(String, String)>,
    /// The request body, where the request has one.
    pub body: Option<String>,
}

/// What a [`Request`] holds, with its texts as character sequences.
pub struct RequestData {
    pub method: Method,
    pub url: Seq<char>,
    pub headers: Seq<(Seq<char>, Seq<char>)>,
    pub body: Option<Seq<char>>,
}

impl View for Request {
    type V = RequestData;

    open spec fn view(&self) -> RequestData {
        RequestData {
            method: self.method,
            url: self.url@,
            headers: self.headers@.map_values(|header: (String, String)| (header.0@, header.1@)),
            body: match self.body {
                Some(body) => Some(body@),
                None => None,
            },
        }
    }
}

/// The HTTPS URL of `path` on the controller at `address`.
pub open spec fn endpoint(address: Seq<char>, path: Seq<char>) -> Seq<char> {
    "https://"@ + address + path
}

/// Builds the HTTPS URL of `path` on the controller at `address`.
pub fn endpoint_url(address: &str, path: &str) -> (url: String)
    ensures
        url@ == endpoint(address@, path@),
{
    let mut url = "https://".to_owned();
    url.append(address);
    url.append(path);
    url
}

} // verus!
