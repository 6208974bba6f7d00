//! Serving the static files of a site.
//!
//! The file system is not touched here. The caller resolves the path that
//! `site_path` gives, looks at what is there, and `serve_files` turns what
//! it found into the response.

use crate::headers::{
    header_map_clone, header_map_new, is_field_value, is_sendable, HeaderError,
};
use crate::response::{
    content_type_header, BodyView, PavexBody, PavexResponse, PavexResponseParts, ResponseView,
    INTERNAL_SERVER_ERROR, OK,
};
use crate::response_options::{with_header, ResponseOptions};
use vstd::prelude::*;

verus! {

/// The status of a response to a request for something that is not there.
pub const NOT_FOUND: u16 = 404;

/// The part of the request path that names a file of the site.
#[derive(Clone, Copy, Debug)]
pub struct SubPath<'a> {
    pub path: &'a str,
}

/// The directory that holds the site, relative to where the server runs.
pub open spec fn site_root() -> Seq<char> {
    "./target/site"@
}

/// The name of the header that gives the length of a body.
pub open spec fn content_length_header() -> Seq<char> {
    "content-length"@
}

/// The path of the file that a sub-path names, before it is resolved.
pub fn site_path(subpath: &SubPath) -> (path: String)
    ensures
        path@ == site_root() + seq!['/'] + subpath.path@,
{
    proof {
        reveal_strlit("/");
    }
    let mut path = "./target/site".to_owned();
    path.append("/");
    path.append(subpath.path);
    path
}

/// The file that is served for a resolved path: the path itself, or the
/// `index.html` in it where it is a directory.
pub fn file_target(resolved: &str, is_dir: bool) -> (target: String)
    ensures
        target@ == if is_dir {
            resolved@ + "/index.html"@
        } else {
            resolved@
        },
{
    let mut target = resolved.to_owned();
    if is_dir {
        target.append("/index.html");
    }
    assert(target@ =~= if is_dir {
        resolved@ + "/index.html"@
    } else {
        resolved@
    });
    target
}

/// Whether `text` begins with `prefix`.
pub open spec fn has_prefix(text: Seq<char>, prefix: Seq<char>) -> bool {
    prefix.len() <= text.len() && text.subrange(0, prefix.len() as int) == prefix
}

/// `str::starts_with` with a string as the pattern: whether `text` begins
/// with `prefix`.
#[verifier::external_body]
fn str_starts_with(text: &str, prefix: &str) -> (found: bool)
    ensures
        found == has_prefix(text@, prefix@),
{
    text.starts_with(prefix)
}

/// Whether the resolved `path` is the resolved `root` or lies in it.
pub open spec fn is_beneath(root: Seq<char>, path: Seq<char>) -> bool {
    path == root || has_prefix(path, root + seq!['/'])
}

/// Whether the resolved `path` is the resolved `root` or lies in it.
pub fn lies_beneath(root: &str, path: &str) -> (inside: bool)
    ensures
        inside == is_beneath(root@, path@),
{
    proof {
        reveal_strlit("/");
    }
    let mut prefix = root.to_owned();
    if prefix == path.to_owned() {
        return true;
    }
    prefix.append("/");
    assert(prefix@ =~= root@ + seq!['/']);
    str_starts_with(path, prefix.as_str())
}

/// The decimal digit for `d`.
pub open spec fn digit(d: nat) -> char {
    if d == 0 {
        '0'
    } else if d == 1 {
        '1'
    } else if d == 2 {
        '2'
    } else if d == 3 {
        '3'
    } else if d == 4 {
        '4'
    } else if d == 5 {
        '5'
    } else if d == 6 {
        '6'
    } else if d == 7 {
        '7'
    } else if d == 8 {
        '8'
    } else {
        '9'
    }
}

/// The number `n` in decimal digits.
pub open spec fn decimal_text(n: nat) -> Seq<char>
    decreases n,
{
    if n < 10 {
        seq![digit(n)]
    } else {
        decimal_text(n / 10) + seq![digit(n % 10)]
    }
}

/// The number `n` in decimal digits.
pub fn decimal(n: usize) -> (text: String)
    ensures
        text@ == decimal_text(n as nat),
    decreases n,
{
    let d = n % 10;
    proof {
        reveal_strlit("0");
        reveal_strlit("1");
        reveal_strlit("2");
        reveal_strlit("3");
        reveal_strlit("4");
        reveal_strlit("5");
        reveal_strlit("6");
        reveal_strlit("7");
        reveal_strlit("8");
        reveal_strlit("9");
    }
    let last = if d == 0 {
        "0"
    } else if d == 1 {
        "1"
    } else if d == 2 {
        "2"
    } else if d == 3 {
        "3"
    } else if d == 4 {
        "4"
    } else if d == 5 {
        "5"
    } else if d == 6 {
        "6"
    } else if d == 7 {
        "7"
    } else if d == 8 {
        "8"
    } else {
        "9"
    };
    assert(last@ =~= seq![digit(d as nat)]);
    if n < 10 {
        last.to_owned()
    } else {
        let mut text = decimal(n / 10);
        text.append(last);
        text
    }
}

/// A number in decimal digits can be sent as a field value.
pub proof fn lemma_decimal_is_field_value(n: nat)
    ensures
        is_field_value(decimal_text(n)),
    decreases n,
{
    if n >= 10 {
        lemma_decimal_is_field_value(n / 10);
    }
}

/// The media type that `mime_guess` gives for the extension of a path,
/// `application/octet-stream` where it knows none.
pub uninterp spec fn guessed_mime(path: Seq<char>) -> Seq<char>;

/// `mime_guess::from_path` followed by `MimeGuess::first_or_octet_stream`:
/// the media type for a path, written out. The guess goes by the
/// extension alone; no file is looked at.
#[verifier::external_body]
fn guess_mime(path: &str) -> (mime: String)
    ensures
        mime@ == guessed_mime(path@),
{
    mime_guess::from_path(path).first_or_octet_stream().to_string()
}

/// What the file system said about the file that a request asks for.
#[derive(Debug)]
pub enum FileLookup {
    /// The path could not be resolved.
    Unresolved,
    /// The path resolved to `path`, and nothing is there.
    Missing { path: String },
    /// The path resolved to `path`, and whether anything is there could
    /// not be told.
    Unchecked { path: String },
    /// There is a file at `path` that could not be read.
    Unreadable { path: String },
    /// The file at `path` holds `contents`.
    Found { path: String, contents: Vec<u8> },
}

/// A response without headers and without a body.
pub open spec fn bare_response(status_code: u16) -> ResponseView {
    ResponseView { status_code, headers: Map::empty(), body: BodyView::Plain(Seq::empty()) }
}

/// The response that carries a file: its media type, its length in
/// decimal digits, and its contents.
pub open spec fn file_found(mime: Seq<char>, contents: Seq<u8>) -> ResponseView {
    ResponseView {
        status_code: OK,
        headers: with_header(
            with_header(Map::empty(), content_type_header(), mime),
            content_length_header(),
            decimal_text(contents.len()),
        ),
        body: BodyView::Plain(contents),
    }
}

/// The response to a request for a file of the site below `root`.
///
/// A path that does not resolve, or resolves to a place outside the site,
/// or to nothing, is not found. Where the file system failed on a file of
/// the site the server is at fault. A file that was read is sent with
/// the media type `mime`, unless no header can carry that.
pub open spec fn served(root: Seq<char>, lookup: FileLookup, mime: Seq<char>) -> Result<
    ResponseView,
    HeaderError,
> {
    match lookup {
        FileLookup::Unresolved => Ok(bare_response(NOT_FOUND)),
        FileLookup::Missing { path } => Ok(bare_response(NOT_FOUND)),
        FileLookup::Unchecked { path } => if is_beneath(root, path@) {
            Ok(bare_response(INTERNAL_SERVER_ERROR))
        } else {
            Ok(bare_response(NOT_FOUND))
        },
        FileLookup::Unreadable { path } => if is_beneath(root, path@) {
            Ok(bare_response(INTERNAL_SERVER_ERROR))
        } else {
            Ok(bare_response(NOT_FOUND))
        },
        FileLookup::Found { path, contents } => if !is_beneath(root, path@) {
            Ok(bare_response(NOT_FOUND))
        } else if is_field_value(mime) {
            Ok(file_found(mime, contents@))
        } else {
            Err(HeaderError::InvalidHeaderValue)
        },
    }
}

/// The media type that is guessed for the file of a lookup.
pub open spec fn lookup_mime(lookup: FileLookup) -> Seq<char> {
    match lookup {
        FileLookup::Found { path, contents } => guessed_mime(path@),
        _ => Seq::empty(),
    }
}

/// A response without headers and without a body.
fn respond_bare(status_code: u16) -> (response: PavexResponse)
    ensures
        response@ == bare_response(status_code),
        is_sendable(response@.headers),
{
    PavexResponse(
        PavexResponseParts {
            status_code,
            headers: header_map_new(),
            body: PavexBody::Plain(Vec::new()),
        },
    )
}

/// The `200` response that carries a file of the given media type. A
/// media type that no header can carry is refused.
pub fn file_response(mime: &str, contents: Vec<u8>) -> (made: Result<PavexResponse, HeaderError>)
    ensures
        (made is Ok) == is_field_value(mime@),
        made is Ok ==> made->Ok_0@ == file_found(mime@, contents@),
        made is Ok ==> is_sendable(made->Ok_0@.headers),
        made is Err ==> made->Err_0 == HeaderError::InvalidHeaderValue,
{
    proof {
        reveal_strlit("content-type");
        reveal_strlit("content-length");
        lemma_decimal_is_field_value(contents@.len());
    }
    let mut options = ResponseOptions::default();
    assert(options@.headers.dom() =~= Set::<Seq<char>>::empty());
    match options.insert_header("content-type", mime) {
        Ok(_) => {},
        Err(error) => {
            return Err(error);
        },
    }
    let length = decimal(contents.len());
    assert(options@.headers.dom() =~= Set::<Seq<char>>::empty().insert(content_type_header()));
    match options.insert_header("content-length", length.as_str()) {
        Ok(_) => {},
        Err(error) => {
            return Err(error);
        },
    }
    Ok(
        PavexResponse(
            PavexResponseParts {
                status_code: OK,
                headers: header_map_clone(options.headers()),
                body: PavexBody::Plain(contents),
            },
        ),
    )
}

/// Answers a request for a file of the site below `root` from what the
/// file system said about it.
pub fn serve_files(root: &str, lookup: FileLookup) -> (made: Result<PavexResponse, HeaderError>)
    ensures
        (made is Ok) == (served(root@, lookup, lookup_mime(lookup)) is Ok),
        made is Ok ==> made->Ok_0@ == served(root@, lookup, lookup_mime(lookup))->Ok_0,
        made is Ok ==> is_sendable(made->Ok_0@.headers),
        made is Err ==> made->Err_0 == served(root@, lookup, lookup_mime(lookup))->Err_0,
{
    match lookup {
        FileLookup::Unresolved => Ok(respond_bare(NOT_FOUND)),
        FileLookup::Missing { path } => Ok(respond_bare(NOT_FOUND)),
        FileLookup::Unchecked { path } => {
            if lies_beneath(root, path.as_str()) {
                Ok(respond_bare(INTERNAL_SERVER_ERROR))
            } else {
                Ok(respond_bare(NOT_FOUND))
            }
        },
        FileLookup::Unreadable { path } => {
            if lies_beneath(root, path.as_str()) {
                Ok(respond_bare(INTERNAL_SERVER_ERROR))
            } else {
                Ok(respond_bare(NOT_FOUND))
            }
        },
        FileLookup::Found { path, contents } => {
            if !lies_beneath(root, path.as_str()) {
                Ok(respond_bare(NOT_FOUND))
            } else {
                let mime = guess_mime(path.as_str());
                file_response(mime.as_str(), contents)
            }
        },
    }
}

/// Answers a request for the front page of the site below `root`: the
/// file that `site_path` names for the empty sub-path.
pub fn index(root: &str, lookup: FileLookup) -> (made: Result<PavexResponse, HeaderError>)
    ensures
        (made is Ok) == (served(root@, lookup, lookup_mime(lookup)) is Ok),
        made is Ok ==> made->Ok_0@ == served(root@, lookup, lookup_mime(lookup))->Ok_0,
        made is Ok ==> is_sendable(made->Ok_0@.headers),
        made is Err ==> made->Err_0 == served(root@, lookup, lookup_mime(lookup))->Err_0,
{
    serve_files(root, lookup)
}

} // verus!
