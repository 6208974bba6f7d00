//! The header set carried by requests and responses.
//!
//! A header set is an `http` header map (reached through Pavex's re-export)
//! whose values are kept as raw bytes. Header names are written in canonical
//! form: lower case, at most 64 characters. What this module states about
//! the map and about field values is taken from the `http` crate and is not
//! proved here; each such statement says which function it describes.

use pavex::http::header::{HeaderName, InvalidHeaderValue, MaxSizeReached};
use pavex::http::{HeaderMap, HeaderValue};
use vstd::prelude::*;
use vstd::string::StringSliceAdditionalSpecFns;

verus! {

/// `http::HeaderMap`, a multimap from header names to values.
#[verifier::external_type_specification]
#[verifier::external_body]
#[verifier::reject_recursive_types(T)]
pub struct ExHeaderMap<T>(HeaderMap<T>);

/// `http::header::InvalidHeaderValue`, the error of a rejected field value.
#[verifier::external_type_specification]
#[verifier::external_body]
pub struct ExInvalidHeaderValue(InvalidHeaderValue);

/// `http::header::MaxSizeReached`, the error of a header map that cannot
/// grow any further.
#[verifier::external_type_specification]
#[verifier::external_body]
pub struct ExMaxSizeReached(MaxSizeReached);

/// A header set.
pub type Headers = HeaderMap<Vec<u8>>;

/// What a header map holds: for each name that is present, the values
/// stored under it, first one first.
pub uninterp spec fn header_entries(m: HeaderMap<Vec<u8>>) -> Map<Seq<char>, Seq<Seq<u8>>>;

/// The number of names up to which a header map accepts one more.
pub const ROOMY_HEADER_COUNT: usize = 4096;

/// Whether `c` may appear in a canonical header name: a lower-case letter,
/// a digit, or one of the punctuation marks of an HTTP token.
pub open spec fn is_name_char(c: char) -> bool {
    ('a' <= c && c <= 'z') || ('0' <= c && c <= '9') || c == '!' || c == '#' || c == '$' || c
        == '%' || c == '&' || c == '\'' || c == '*' || c == '+' || c == '-' || c == '.' || c == '^'
        || c == '_' || c == '`' || c == '|' || c == '~'
}

/// Whether `name` is a canonical header name.
pub open spec fn is_header_name(name: Seq<char>) -> bool {
    1 <= name.len() <= 64 && forall|i: int| 0 <= i < name.len() ==> is_name_char(#[trigger] name[i])
}

/// Whether `c` may appear in a field value: anything but a control
/// character, and the tab.
pub open spec fn is_value_char(c: char) -> bool {
    (c >= ' ' && c != '\x7f') || c == '\t'
}

/// Whether `text` can be sent as a field value.
pub open spec fn is_field_value(text: Seq<char>) -> bool {
    forall|i: int| 0 <= i < text.len() ==> is_value_char(#[trigger] text[i])
}

/// Whether `b` may appear in a field value: anything but an ASCII control
/// character, and the tab.
pub open spec fn is_value_byte(b: u8) -> bool {
    (b >= 32 && b != 127) || b == 9
}

/// Whether `value` can be sent as a field value.
pub open spec fn is_value_bytes(value: Seq<u8>) -> bool {
    forall|i: int| 0 <= i < value.len() ==> is_value_byte(#[trigger] value[i])
}

/// Whether a header set can be sent as it is: every name is canonical and
/// every value is a field value.
pub open spec fn is_sendable(headers: Map<Seq<char>, Seq<Seq<u8>>>) -> bool {
    forall|name: Seq<char>| #[trigger]
        headers.contains_key(name) ==> is_header_name(name) && forall|i: int|
            0 <= i < headers[name].len() ==> is_value_bytes(#[trigger] headers[name][i])
}

/// Whether `b` is a printable ASCII character, a space or a tab.
pub open spec fn is_visible_byte(b: u8) -> bool {
    (32 <= b && b < 127) || b == 9
}

/// Whether a field value is text: printable ASCII, spaces and tabs only.
pub open spec fn is_visible_text(value: Seq<u8>) -> bool {
    forall|i: int| 0 <= i < value.len() ==> is_visible_byte(#[trigger] value[i])
}

/// The characters that the bytes of an ASCII text stand for.
pub open spec fn ascii_text(value: Seq<u8>) -> Seq<char> {
    Seq::new(value.len(), |i: int| value[i] as char)
}

/// `HeaderMap::default`: a header map that holds nothing.
#[verifier::external_body]
pub(crate) fn header_map_new() -> (r: Headers)
    ensures
        header_entries(r) =~= Map::empty(),
{
    HeaderMap::default()
}

/// `HeaderMap::clone`: a header map that holds what the given one holds.
#[verifier::external_body]
pub(crate) fn header_map_clone(m: &Headers) -> (r: Headers)
    ensures
        header_entries(r) == header_entries(*m),
{
    m.clone()
}

/// `HeaderMap::get` with a canonical name: the first value stored under
/// the name, or nothing where the name is absent.
#[verifier::external_body]
pub(crate) fn header_map_get<'a>(m: &'a Headers, name: &str) -> (r: Option<&'a Vec<u8>>)
    requires
        is_header_name(name@),
    ensures
        r.is_some() == header_entries(*m).contains_key(name@),
        r.is_some() ==> header_entries(*m)[name@].len() > 0 && r.unwrap()@ == header_entries(
            *m,
        )[name@][0],
{
    m.get(name)
}

/// `HeaderMap::try_insert` with a canonical name. On success the value is
/// the only one under the name and the other names are untouched; on
/// failure the map holds what it held. The map fails only when it cannot
/// grow, which does not happen while it holds fewer than
/// `ROOMY_HEADER_COUNT` names.
#[verifier::external_body]
pub(crate) fn header_map_try_insert(m: &mut Headers, name: &str, value: Vec<u8>) -> (r: Result<
    (),
    MaxSizeReached,
>)
    requires
        is_header_name(name@),
    ensures
        r.is_ok() ==> header_entries(*final(m)) == header_entries(*old(m)).insert(
            name@,
            seq![value@],
        ),
        r.is_err() ==> header_entries(*final(m)) == header_entries(*old(m)),
        header_entries(*old(m)).dom().finite() && header_entries(*old(m)).dom().len()
            < ROOMY_HEADER_COUNT ==> r.is_ok(),
{
    let key = HeaderName::from_bytes(name.as_bytes()).expect("canonical header name");
    m.try_insert(key, value).map(|_| ())
}

/// `HeaderValue::from_str`: the bytes of `text` as a field value, or an
/// error where `text` holds a character that no field value may hold. The
/// bytes of an accepted value are the UTF-8 encoding of `text`, and each of
/// them passed the test for a byte of a field value.
#[verifier::external_body]
pub(crate) fn field_value_from_str(text: &str) -> (r: Result<Vec<u8>, InvalidHeaderValue>)
    ensures
        r.is_ok() == is_field_value(text@),
        r.is_ok() ==> r.unwrap()@ == text.spec_bytes(),
        r.is_ok() ==> is_value_bytes(r.unwrap()@),
{
    HeaderValue::from_str(text).map(|value| value.as_bytes().to_vec())
}

/// `HeaderValue::to_str`: the field value as text, where it is printable
/// ASCII throughout, and nothing otherwise.
#[verifier::external_body]
pub(crate) fn field_value_to_str(value: &Vec<u8>) -> (r: Option<String>)
    ensures
        r.is_some() == is_visible_text(value@),
        r.is_some() ==> r.unwrap()@ == ascii_text(value@),
{
    match HeaderValue::from_bytes(value) {
        Ok(parsed) => parsed.to_str().ok().map(|text| text.to_owned()),
        Err(_) => None,
    }
}

/// What can go wrong when a header is set.
#[derive(Clone, Copy, Debug, PartialEq, Eq, Structural)]
pub enum HeaderError {
    /// The name is not a canonical header name.
    InvalidHeaderName,
    /// The value holds a character that no field value may hold.
    InvalidHeaderValue,
    /// The header set cannot take another name.
    TooManyHeaders,
}

/// Whether `name` is a canonical header name.
pub fn is_canonical_name(name: &str) -> (valid: bool)
    ensures
        valid == is_header_name(name@),
{
    let len = name.unicode_len();
    if len < 1 || len > 64 {
        return false;
    }
    let mut i: usize = 0;
    while i < len
        invariant
            len == name@.len(),
            i <= len,
            forall|k: int| 0 <= k < i ==> is_name_char(#[trigger] name@[k]),
        decreases len - i,
    {
        let c = name.get_char(i);
        let ok = ('a' <= c && c <= 'z') || ('0' <= c && c <= '9') || c == '!' || c == '#' || c
            == '$' || c == '%' || c == '&' || c == '\'' || c == '*' || c == '+' || c == '-' || c
            == '.' || c == '^' || c == '_' || c == '`' || c == '|' || c == '~';
        if !ok {
            return false;
        }
        i += 1;
    }
    true
}

} // verus!
