//! Responses: a status, a header set and a body, either whole or in chunks.

use crate::headers::{
    field_value_from_str, header_entries, header_map_new, header_map_try_insert, is_field_value,
    is_header_name, is_sendable, HeaderError, Headers,
};
use crate::response_options::with_header;
use vstd::prelude::*;
use vstd::utf8::encode_utf8;

verus! {

/// The status of a response that went well.
pub const OK: u16 = 200;

/// The status of a response to a request that the server failed on.
pub const INTERNAL_SERVER_ERROR: u16 = 500;

/// The body of a response: one buffer, or the chunks of a stream in the
/// order in which they are sent.
#[derive(Debug)]
pub enum PavexBody {
    Plain(Vec<u8>),
    Streaming(Vec<Vec<u8>>),
}

/// What a body holds.
pub enum BodyView {
    Plain(Seq<u8>),
    Streaming(Seq<Seq<u8>>),
}

/// The bytes of each chunk, in order.
pub open spec fn chunks_view(chunks: Seq<Vec<u8>>) -> Seq<Seq<u8>> {
    chunks.map_values(|chunk: Vec<u8>| chunk@)
}

impl View for PavexBody {
    type V = BodyView;

    open spec fn view(&self) -> BodyView {
        match self {
            PavexBody::Plain(bytes) => BodyView::Plain(bytes@),
            PavexBody::Streaming(chunks) => BodyView::Streaming(chunks_view(chunks@)),
        }
    }
}

/// The parts of a response.
#[derive(Debug)]
pub struct PavexResponseParts {
    pub status_code: u16,
    pub headers: Headers,
    pub body: PavexBody,
}

/// What a response says.
pub struct ResponseView {
    pub status_code: u16,
    pub headers: Map<Seq<char>, Seq<Seq<u8>>>,
    pub body: BodyView,
}

/// A response.
#[derive(Debug)]
pub struct PavexResponse(pub PavexResponseParts);

impl View for PavexResponse {
    type V = ResponseView;

    open spec fn view(&self) -> ResponseView {
        ResponseView {
            status_code: self.0.status_code,
            headers: header_entries(self.0.headers),
            body: self.0.body@,
        }
    }
}

/// The name of the header that says what a body is.
pub open spec fn content_type_header() -> Seq<char> {
    "content-type"@
}

/// The name of the header that marks the response of a server function
/// that failed.
pub open spec fn server_fn_error_header() -> Seq<char> {
    "serverfnerror"@
}

/// `server_fn::error::SERVER_FN_ERROR_HEADER`, the name of the header that
/// marks the response of a server function that failed.
#[verifier::external_body]
fn server_fn_error_header_name() -> (name: &'static str)
    ensures
        name@ == server_fn_error_header(),
{
    leptos::server_fn::error::SERVER_FN_ERROR_HEADER
}

/// The header set that holds `text` under `name` and nothing else.
pub open spec fn single_header(name: Seq<char>, text: Seq<char>) -> Map<Seq<char>, Seq<Seq<u8>>> {
    with_header(Map::empty(), name, text)
}

/// A header set with one header, unless no header can carry `value`.
pub(crate) fn header_set_of(name: &str, value: &str) -> (made: Result<Headers, HeaderError>)
    requires
        is_header_name(name@),
    ensures
        (made is Ok) == is_field_value(value@),
        made is Ok ==> header_entries(made->Ok_0) == single_header(name@, value@),
        made is Ok ==> is_sendable(header_entries(made->Ok_0)),
        made is Err ==> made->Err_0 == HeaderError::InvalidHeaderValue,
{
    let bytes = match field_value_from_str(value) {
        Ok(bytes) => bytes,
        Err(_) => {
            return Err(HeaderError::InvalidHeaderValue);
        },
    };
    let mut headers = header_map_new();
    assert(header_entries(headers).dom() =~= Set::<Seq<char>>::empty());
    match header_map_try_insert(&mut headers, name, bytes) {
        Ok(_) => {
            assert forall|other: Seq<char>| #[trigger]
                header_entries(headers).contains_key(other) implies other == name@ by {}
            Ok(headers)
        },
        Err(_) => Err(HeaderError::TooManyHeaders),
    }
}

/// The response that `try_from_string`, `try_from_bytes` and
/// `try_from_stream` make of a content type and a body.
pub open spec fn body_response(content_type: Seq<char>, body: BodyView) -> ResponseView {
    ResponseView {
        status_code: OK,
        headers: single_header(content_type_header(), content_type),
        body,
    }
}

impl PavexResponse {
    /// A `200` response that carries `data` as text of the given content
    /// type. A content type that no header can carry is refused.
    pub fn try_from_string(content_type: &str, data: String) -> (made: Result<Self, HeaderError>)
        ensures
            (made is Ok) == is_field_value(content_type@),
            made is Ok ==> made->Ok_0@ == body_response(
                content_type@,
                BodyView::Plain(encode_utf8(data@)),
            ),
            made is Ok ==> is_sendable(made->Ok_0@.headers),
            made is Err ==> made->Err_0 == HeaderError::InvalidHeaderValue,
    {
        PavexResponse::try_from_bytes(content_type, data.as_str().as_bytes_vec())
    }

    /// A `200` response that carries `data` with the given content type. A
    /// content type that no header can carry is refused.
    pub fn try_from_bytes(content_type: &str, data: Vec<u8>) -> (made: Result<Self, HeaderError>)
        ensures
            (made is Ok) == is_field_value(content_type@),
            made is Ok ==> made->Ok_0@ == body_response(content_type@, BodyView::Plain(data@)),
            made is Ok ==> is_sendable(made->Ok_0@.headers),
            made is Err ==> made->Err_0 == HeaderError::InvalidHeaderValue,
    {
        proof {
            reveal_strlit("content-type");
        }
        match header_set_of("content-type", content_type) {
            Ok(headers) => Ok(
                PavexResponse(
                    PavexResponseParts { status_code: OK, headers, body: PavexBody::Plain(data) },
                ),
            ),
            Err(error) => Err(error),
        }
    }

    /// A `200` response that streams the chunks of `data`, in order, with
    /// the given content type. A content type that no header can carry is
    /// refused.
    pub fn try_from_stream(content_type: &str, data: Vec<Vec<u8>>) -> (made: Result<
        Self,
        HeaderError,
    >)
        ensures
            (made is Ok) == is_field_value(content_type@),
            made is Ok ==> made->Ok_0@ == body_response(
                content_type@,
                BodyView::Streaming(chunks_view(data@)),
            ),
            made is Ok ==> is_sendable(made->Ok_0@.headers),
            made is Err ==> made->Err_0 == HeaderError::InvalidHeaderValue,
    {
        proof {
            reveal_strlit("content-type");
        }
        match header_set_of("content-type", content_type) {
            Ok(headers) => Ok(
                PavexResponse(
                    PavexResponseParts {
                        status_code: OK,
                        headers,
                        body: PavexBody::Streaming(data),
                    },
                ),
            ),
            Err(error) => Err(error),
        }
    }

    /// The `500` response to a server function that failed at `path`: the
    /// error header names the path, the body carries the error as the
    /// caller serialised it. A path that no header can carry is refused.
    pub fn error_response(path: &str, payload: String) -> (made: Result<Self, HeaderError>)
        ensures
            (made is Ok) == is_field_value(path@),
            made is Ok ==> made->Ok_0@ == (ResponseView {
                status_code: INTERNAL_SERVER_ERROR,
                headers: single_header(server_fn_error_header(), path@),
                body: BodyView::Plain(encode_utf8(payload@)),
            }),
            made is Ok ==> is_sendable(made->Ok_0@.headers),
            made is Err ==> made->Err_0 == HeaderError::InvalidHeaderValue,
    {
        proof {
            reveal_strlit("serverfnerror");
        }
        match header_set_of(server_fn_error_header_name(), path) {
            Ok(headers) => Ok(
                PavexResponse(
                    PavexResponseParts {
                        status_code: INTERNAL_SERVER_ERROR,
                        headers,
                        body: PavexBody::Plain(payload.as_str().as_bytes_vec()),
                    },
                ),
            ),
            Err(error) => Err(error),
        }
    }

    /// Leaves the response as it is: a redirect is set on the response
    /// options of the session, not on a finished response.
    pub fn redirect(&mut self, path: &str)
        ensures
            *final(self) == *old(self),
    {
    }
}

} // verus!
