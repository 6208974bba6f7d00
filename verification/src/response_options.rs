//! The status and the headers that rendering may set on the response.

use crate::headers::{
    field_value_from_str, header_entries, header_map_clone, header_map_new, header_map_try_insert,
    is_canonical_name, is_field_value, is_header_name, is_sendable, HeaderError, Headers,
    ROOMY_HEADER_COUNT,
};
use vstd::prelude::*;
use vstd::utf8::encode_utf8;

verus! {

/// What the response options say: the status, where one was set, and the
/// header set.
pub struct ResponseOptionsView {
    pub status: Option<u16>,
    pub headers: Map<Seq<char>, Seq<Seq<u8>>>,
}

/// The status and the headers of the response of one request. Rendering
/// writes them, and the response is assembled from them.
#[derive(Debug)]
pub struct ResponseOptions {
    status: Option<u16>,
    headers: Headers,
}

impl View for ResponseOptions {
    type V = ResponseOptionsView;

    closed spec fn view(&self) -> ResponseOptionsView {
        ResponseOptionsView { status: self.status, headers: header_entries(self.headers) }
    }
}

/// The header set after `text` became the only value of `name`.
pub open spec fn with_header(
    headers: Map<Seq<char>, Seq<Seq<u8>>>,
    name: Seq<char>,
    text: Seq<char>,
) -> Map<Seq<char>, Seq<Seq<u8>>> {
    headers.insert(name, seq![encode_utf8(text)])
}

/// Whether a header set is sure to take another name.
pub open spec fn has_room(headers: Map<Seq<char>, Seq<Seq<u8>>>) -> bool {
    headers.dom().finite() && headers.dom().len() < ROOMY_HEADER_COUNT
}

impl Clone for ResponseOptions {
    fn clone(&self) -> (options: Self)
        ensures
            options@ == self@,
    {
        ResponseOptions { status: self.status, headers: header_map_clone(&self.headers) }
    }
}

impl Default for ResponseOptions {
    fn default() -> (options: Self)
        ensures
            options@.status is None,
            options@.headers == Map::<Seq<char>, Seq<Seq<u8>>>::empty(),
            is_sendable(options@.headers),
    {
        ResponseOptions { status: None, headers: header_map_new() }
    }
}

impl ResponseOptions {
    /// The status that was set, if any.
    pub fn status(&self) -> (status: Option<u16>)
        ensures
            status == self@.status,
    {
        self.status
    }

    /// The headers that were set.
    pub fn headers(&self) -> (headers: &Headers)
        ensures
            header_entries(*headers) == self@.headers,
    {
        &self.headers
    }

    /// Set the status of the response.
    pub fn set_status(&mut self, status: u16)
        ensures
            final(self)@ == (ResponseOptionsView {
                status: Some(status),
                headers: old(self)@.headers,
            }),
    {
        self.status = Some(status);
    }

    /// Set a header, replacing whatever values the name had.
    ///
    /// A name that is not canonical or a value that no header can carry is
    /// refused, and so is a new header by a set that cannot grow; the
    /// options are then left as they were. Headers that could be sent before
    /// can be sent afterwards.
    pub fn insert_header(&mut self, name: &str, value: &str) -> (done: Result<(), HeaderError>)
        ensures
            !is_header_name(name@) ==> done == Err::<(), HeaderError>(
                HeaderError::InvalidHeaderName,
            ),
            is_header_name(name@) && !is_field_value(value@) ==> done == Err::<(), HeaderError>(
                HeaderError::InvalidHeaderValue,
            ),
            is_header_name(name@) && is_field_value(value@) ==> done is Ok || done == Err::<
                (),
                HeaderError,
            >(HeaderError::TooManyHeaders),
            is_header_name(name@) && is_field_value(value@) && has_room(old(self)@.headers)
                ==> done is Ok,
            done is Ok ==> final(self)@ == (ResponseOptionsView {
                status: old(self)@.status,
                headers: with_header(old(self)@.headers, name@, value@),
            }),
            done is Err ==> final(self)@ == old(self)@,
            is_sendable(old(self)@.headers) ==> is_sendable(final(self)@.headers),
    {
        if !is_canonical_name(name) {
            return Err(HeaderError::InvalidHeaderName);
        }
        let bytes = match field_value_from_str(value) {
            Ok(bytes) => bytes,
            Err(_) => {
                return Err(HeaderError::InvalidHeaderValue);
            },
        };
        let ghost before = header_entries(self.headers);
        match header_map_try_insert(&mut self.headers, name, bytes) {
            Ok(_) => {
                proof {
                    let after = header_entries(self.headers);
                    if is_sendable(before) {
                        assert forall|other: Seq<char>| #[trigger]
                            after.contains_key(other) implies is_header_name(other) && forall|
                            i: int,
                        |
                            0 <= i < after[other].len() ==> crate::headers::is_value_bytes(
                                #[trigger] after[other][i],
                            ) by {
                            if other != name@ {
                                assert(before.contains_key(other));
                            }
                        }
                    }
                }
                Ok(())
            },
            Err(_) => Err(HeaderError::TooManyHeaders),
        }
    }
}

} // verus!
