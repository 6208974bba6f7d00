//! The parts of a request that rendering may look at.

use crate::headers::{header_entries, header_map_clone, header_map_new, Headers};
use vstd::prelude::*;

verus! {

/// What a request head says.
pub struct RequestPartsView {
    pub method: Seq<char>,
    pub scheme: Option<Seq<char>>,
    pub headers: Map<Seq<char>, Seq<Seq<u8>>>,
}

/// The method, the scheme and the headers of a request, copied out of the
/// request head so that they can outlive the connection.
#[derive(Debug)]
pub struct RequestParts {
    method: String,
    scheme: Option<String>,
    headers: Headers,
}

impl View for RequestParts {
    type V = RequestPartsView;

    closed spec fn view(&self) -> RequestPartsView {
        RequestPartsView {
            method: self.method@,
            scheme: match self.scheme {
                Some(scheme) => Some(scheme@),
                None => None,
            },
            headers: header_entries(self.headers),
        }
    }
}

impl Clone for RequestParts {
    fn clone(&self) -> (parts: Self)
        ensures
            parts@ == self@,
    {
        let scheme = match &self.scheme {
            Some(text) => Some(text.clone()),
            None => None,
        };
        RequestParts {
            method: self.method.clone(),
            scheme,
            headers: header_map_clone(&self.headers),
        }
    }
}

impl RequestParts {
    /// The parts of a request that was never made: a `GET` without scheme
    /// and without headers.
    pub fn new() -> (parts: Self)
        ensures
            parts@.method == "GET"@,
            parts@.scheme is None,
            parts@.headers == Map::<Seq<char>, Seq<Seq<u8>>>::empty(),
    {
        RequestParts { method: "GET".to_owned(), scheme: None, headers: header_map_new() }
    }

    /// The parts of a request, as its head gives them.
    pub fn new_from_req(method: String, scheme: Option<String>, headers: Headers) -> (parts: Self)
        ensures
            parts@ == (RequestPartsView {
                method: method@,
                scheme: match scheme {
                    Some(scheme) => Some(scheme@),
                    None => None,
                },
                headers: header_entries(headers),
            }),
    {
        RequestParts { method, scheme, headers }
    }

    /// Get the Headers for the Request
    pub fn headers(&self) -> (headers: &Headers)
        ensures
            header_entries(*headers) == self@.headers,
    {
        &self.headers
    }

    /// Get the Method for the Request
    pub fn method(&self) -> (method: &String)
        ensures
            method@ == self@.method,
    {
        &self.method
    }

    /// Get the Scheme for the Request
    pub fn scheme(&self) -> (scheme: &Option<String>)
        ensures
            self@.scheme == match *scheme {
                Some(text) => Some(text@),
                None => None,
            },
    {
        &self.scheme
    }
}

} // verus!
