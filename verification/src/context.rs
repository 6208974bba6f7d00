//! The rendering session of one request, and the redirect that rendering
//! may ask for.
//!
//! A session ties the resolved URL, the request parts and the response
//! options of one request together. It is handed to the renderer
//! explicitly; nothing of it is shared between requests.

use crate::headers::{
    ascii_text, field_value_to_str, header_map_get, is_field_value, is_header_name, is_sendable,
    is_visible_text, HeaderError,
};
use crate::request_parts::RequestParts;
use crate::response_options::{has_room, with_header, ResponseOptions, ResponseOptionsView};
use vstd::prelude::*;

verus! {

/// The status of a redirect that the client follows by itself.
pub const FOUND: u16 = 302;

/// The name of the header that carries the target of a redirect.
pub open spec fn location_header() -> Seq<char> {
    "location"@
}

/// The name of the header that lists what the client accepts.
pub open spec fn accept_header() -> Seq<char> {
    "accept"@
}

/// The name of the header that tells a client of a server function to
/// redirect by itself.
pub open spec fn redirect_header() -> Seq<char> {
    "serverfnredirect"@
}

/// `server_fn::redirect::REDIRECT_HEADER`, the name of the header that tells
/// a client of a server function to redirect by itself.
#[verifier::external_body]
fn redirect_header_name() -> (name: &'static str)
    ensures
        name@ == redirect_header(),
{
    leptos::server_fn::redirect::REDIRECT_HEADER
}

/// Whether `part` occurs in `text`.
pub open spec fn has_substring(text: Seq<char>, part: Seq<char>) -> bool {
    exists|i: int|
        0 <= i && i + part.len() <= text.len() && #[trigger] text.subrange(i, i + part.len())
            == part
}

/// `str::contains` with a string as the pattern: whether `part` occurs in
/// `text`.
#[verifier::external_body]
fn str_contains(text: &str, part: &str) -> (found: bool)
    ensures
        found == has_substring(text@, part@),
{
    text.contains(part)
}

/// Whether a request with these headers comes from a browser that
/// navigates: its first `Accept` value is text and mentions `text/html`.
pub open spec fn accepts_html(headers: Map<Seq<char>, Seq<Seq<u8>>>) -> bool {
    &&& headers.contains_key(accept_header())
    &&& headers[accept_header()].len() > 0
    &&& is_visible_text(headers[accept_header()][0])
    &&& has_substring(ascii_text(headers[accept_header()][0]), "text/html"@)
}

/// How a redirect was passed on to the client.
#[derive(Clone, Copy, Debug, PartialEq, Eq, Structural)]
pub enum RedirectOutcome {
    /// As a `302 Found`, for a browser that navigates.
    Navigation,
    /// As a header that the client of a server function acts on by itself,
    /// with the status left alone.
    ClientSide,
    /// Not at all: there is no rendering session to redirect.
    NoSession,
}

/// The response options once the `Location` header points to `target`.
pub open spec fn located(before: ResponseOptionsView, target: Seq<char>) -> ResponseOptionsView {
    ResponseOptionsView {
        status: before.status,
        headers: with_header(before.headers, location_header(), target),
    }
}

/// The response options after a redirect to `target`. `Location` is set
/// in any case. A browser that navigates gets the status `302`; any other
/// client gets the redirect header with an empty value and the status it
/// had.
pub open spec fn redirected(
    before: ResponseOptionsView,
    html: bool,
    target: Seq<char>,
) -> ResponseOptionsView {
    if html {
        ResponseOptionsView { status: Some(FOUND), headers: located(before, target).headers }
    } else {
        ResponseOptionsView {
            status: before.status,
            headers: located(before, target).headers.insert(
                redirect_header(),
                seq![Seq::<u8>::empty()],
            ),
        }
    }
}

/// Whether a header set is sure to take two more names.
pub open spec fn has_room_for_two(headers: Map<Seq<char>, Seq<Seq<u8>>>) -> bool {
    has_room(headers) && has_room(headers.insert(location_header(), Seq::empty()))
}

/// What ties one request to its rendering: the resolved URL, the request
/// parts and the response options.
#[derive(Debug)]
pub struct RenderingSession {
    pub url: String,
    pub request: RequestParts,
    pub response: ResponseOptions,
}

/// Builds the session of a request from the resolved URL, the request parts
/// and the response options that rendering starts from.
pub fn provide_contexts(
    path: &str,
    parts: RequestParts,
    default_res_options: ResponseOptions,
) -> (session: RenderingSession)
    ensures
        session.url@ == path@,
        session.request == parts,
        session.response == default_res_options,
{
    RenderingSession { url: path.to_owned(), request: parts, response: default_res_options }
}

/// Whether the request of a session comes from a browser that navigates.
pub fn request_accepts_html(request: &RequestParts) -> (html: bool)
    ensures
        html == accepts_html(request@.headers),
{
    proof {
        lemma_names_are_canonical();
    }
    match header_map_get(request.headers(), "accept") {
        Some(value) => match field_value_to_str(value) {
            Some(text) => str_contains(text.as_str(), "text/html"),
            None => false,
        },
        None => false,
    }
}

/// The header names that redirects use are canonical.
pub proof fn lemma_names_are_canonical()
    ensures
        is_header_name(location_header()),
        is_header_name(accept_header()),
        is_header_name(redirect_header()),
{
    reveal_strlit("location");
    reveal_strlit("accept");
    reveal_strlit("serverfnredirect");
}

/// After a redirect for a browser that navigates, the status is `302` and
/// `Location` holds the target and nothing else.
pub proof fn lemma_browser_redirect(before: ResponseOptionsView, target: Seq<char>)
    ensures
        redirected(before, true, target).status == Some(FOUND),
        FOUND == 302,
        redirected(before, true, target).headers[location_header()] == seq![
            vstd::utf8::encode_utf8(target),
        ],
{
}

/// After a redirect for any other client, the status is what it was, the
/// redirect header is there with an empty value, and `Location` holds the
/// target and nothing else.
pub proof fn lemma_client_side_redirect(before: ResponseOptionsView, target: Seq<char>)
    ensures
        redirected(before, false, target).status == before.status,
        redirected(before, false, target).headers.contains_key(redirect_header()),
        redirected(before, false, target).headers[redirect_header()] == seq![Seq::<u8>::empty()],
        redirected(before, false, target).headers[location_header()] == seq![
            vstd::utf8::encode_utf8(target),
        ],
{
    reveal_strlit("location");
    reveal_strlit("serverfnredirect");
    assert(location_header() != redirect_header()) by {
        assert(location_header().len() == 8);
        assert(redirect_header().len() == 16);
    }
}

/// A redirect leaves every header but `Location` and the redirect header
/// as it was.
pub proof fn lemma_redirect_keeps_other_headers(
    before: ResponseOptionsView,
    html: bool,
    target: Seq<char>,
    name: Seq<char>,
)
    requires
        name != location_header(),
        name != redirect_header(),
    ensures
        redirected(before, html, target).headers.contains_key(name) == before.headers.contains_key(
            name,
        ),
        before.headers.contains_key(name) ==> redirected(before, html, target).headers[name]
            == before.headers[name],
{
}

/// What a redirect to `path` makes of a session, and what it reports.
///
/// The URL and the request stay as they are. A `path` that no header can
/// carry is refused and nothing is set. Otherwise the response options
/// are those of `redirected`, and the outcome says which kind of client
/// was served; or the header set could not grow, and then at most
/// `Location` was set. A set with room for two more names does grow.
/// Headers that could be sent before can be sent afterwards.
pub open spec fn redirects(
    before: RenderingSession,
    after: RenderingSession,
    path: Seq<char>,
    done: Result<RedirectOutcome, HeaderError>,
) -> bool {
    let html = accepts_html(before.request@.headers);
    &&& after.url == before.url
    &&& after.request == before.request
    &&& if is_field_value(path) {
        match done {
            Ok(outcome) => {
                &&& after.response@ == redirected(before.response@, html, path)
                &&& outcome == if html {
                    RedirectOutcome::Navigation
                } else {
                    RedirectOutcome::ClientSide
                }
            },
            Err(error) => {
                &&& error == HeaderError::TooManyHeaders
                &&& !has_room_for_two(before.response@.headers)
                &&& (after.response@ == before.response@ || after.response@ == located(
                    before.response@,
                    path,
                ))
            },
        }
    } else {
        &&& done == Err::<RedirectOutcome, HeaderError>(HeaderError::InvalidHeaderValue)
        &&& after.response@ == before.response@
    }
    &&& is_sendable(before.response@.headers) ==> is_sendable(after.response@.headers)
}

/// Redirects the client of a session to `path`.
///
/// `Location` is set to `path` in any case. A browser that navigates (it
/// accepts `text/html`) is sent a `302 Found`. Any other client made the
/// request from code and wants to read the response, so the status is
/// left alone and the redirect header is set, with an empty value, for the
/// client to act on.
///
/// A `path` that no header can carry is refused before anything is set.
pub fn redirect_session(session: &mut RenderingSession, path: &str) -> (done: Result<
    RedirectOutcome,
    HeaderError,
>)
    ensures
        redirects(*old(session), *final(session), path@, done),
{
    proof {
        lemma_names_are_canonical();
        reveal_strlit("");
        assert(""@ =~= Seq::<char>::empty());
    }
    let ghost before = session.response@;
    match session.response.insert_header("location", path) {
        Ok(_) => {},
        Err(error) => {
            return Err(error);
        },
    }
    assert(session.response@ == located(before, path@));
    assert(has_room_for_two(before.headers) ==> has_room(session.response@.headers)) by {
        if has_room_for_two(before.headers) {
            assert(session.response@.headers.dom() =~= before.headers.insert(
                location_header(),
                Seq::empty(),
            ).dom());
        }
    }
    if request_accepts_html(&session.request) {
        session.response.set_status(FOUND);
        Ok(RedirectOutcome::Navigation)
    } else {
        match session.response.insert_header(redirect_header_name(), "") {
            Ok(_) => {
                assert(vstd::utf8::encode_utf8(""@) =~= Seq::<u8>::empty());
                Ok(RedirectOutcome::ClientSide)
            },
            Err(error) => Err(error),
        }
    }
}

/// Redirects the client to `path` from inside rendering.
///
/// `scope` is what rendering runs in: the session of the request that is
/// being rendered, or nothing when no request is. Outside a request nothing
/// is done, and the caller is told so.
pub fn redirect(scope: &mut Option<RenderingSession>, path: &str) -> (done: Result<
    RedirectOutcome,
    HeaderError,
>)
    ensures
        *old(scope) is None ==> *final(scope) is None && done == Ok::<
            RedirectOutcome,
            HeaderError,
        >(RedirectOutcome::NoSession),
        *old(scope) is Some ==> *final(scope) is Some && redirects(
            old(scope)->Some_0,
            final(scope)->Some_0,
            path@,
            done,
        ),
{
    match scope.take() {
        None => Ok(RedirectOutcome::NoSession),
        Some(session) => {
            let mut session = session;
            let done = redirect_session(&mut session, path);
            *scope = Some(session);
            done
        },
    }
}

} // verus!
