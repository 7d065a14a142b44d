//! HTTP headers and status codes, as `reqwest` has them.
use vstd::prelude::*;
use vstd::utf8::*;

verus! {

/// `reqwest::header::HeaderMap`, a multimap from header names to values. What it
/// holds is named by [`header_entries`].
#[verifier::external_type_specification]
#[verifier::external_body]
#[verifier::reject_recursive_types(T)]
pub struct ExHeaderMap<T>(reqwest::header::HeaderMap<T>);

/// `reqwest::header::HeaderValue`, the bytes of one header value. They are named
/// by [`header_bytes`].
#[verifier::external_type_specification]
#[verifier::external_body]
pub struct ExHeaderValue(reqwest::header::HeaderValue);

/// `reqwest::header::InvalidHeaderValue`, the refusal of a header value.
#[verifier::external_type_specification]
#[verifier::external_body]
pub struct ExInvalidHeaderValue(reqwest::header::InvalidHeaderValue);

/// The values of each header name, in lower case, in the order in which they
/// were added.
pub uninterp spec fn header_entries(headers: reqwest::header::HeaderMap) -> Map<
    Seq<char>,
    Seq<Seq<u8>>,
>;

/// The bytes of a header value.
pub uninterp spec fn header_bytes(value: reqwest::header::HeaderValue) -> Seq<u8>;

/// The line that shows an HTTP status code, such as `404 Not Found`.
pub uninterp spec fn status_line(code: u16) -> Seq<char>;

/// The header map without entries.
pub open spec fn no_entries() -> Map<Seq<char>, Seq<Seq<u8>>> {
    Map::empty()
}

/// The entry of a header that is sent with the one value `value`.
pub open spec fn sole_value(value: Seq<char>) -> Seq<Seq<u8>> {
    seq![encode_utf8(value)]
}

/// A character that may stand in a header value: not a control character, the
/// tab apart.
pub open spec fn is_header_char(c: char) -> bool {
    (c as u32 >= 32 && c as u32 != 127) || c == '\t'
}

/// A text that may be sent as a header value.
pub open spec fn is_header_text(s: Seq<char>) -> bool {
    forall|i: int| 0 <= i < s.len() ==> is_header_char(#[trigger] s[i])
}

/// A visible ASCII character.
pub open spec fn is_visible_ascii(c: char) -> bool {
    32 <= c as u32 <= 126
}

/// A name of at most 64 ASCII letters, digits and hyphens.
pub open spec fn is_plain_header_name(name: Seq<char>) -> bool {
    &&& 0 < name.len() <= 64
    &&& forall|i: int|
        0 <= i < name.len() ==> ('a' <= #[trigger] name[i] <= 'z' || 'A' <= name[i] <= 'Z' || '0'
            <= name[i] <= '9' || name[i] == '-')
}

/// An ASCII letter in lower case; other characters as they are.
pub open spec fn lower_ascii(c: char) -> char {
    if 'A' <= c <= 'Z' {
        (c as u32 + 32) as char
    } else {
        c
    }
}

/// A name in lower case, as a header map keeps it.
pub open spec fn header_key(name: Seq<char>) -> Seq<char> {
    name.map_values(|c: char| lower_ascii(c))
}

/// `HeaderMap::new` makes a map without entries.
#[verifier::external_body]
pub(crate) fn new_headers() -> (headers: reqwest::header::HeaderMap)
    ensures
        header_entries(headers) == no_entries(),
{
    reqwest::header::HeaderMap::new()
}

/// `HeaderMap::insert` gives a name, taken in lower case, the one value `value`
/// in place of all that it had. It panics on a name with other characters than
/// those of a header name, and where the map has grown to some thousands of
/// names: such calls are left out here. The previous value is not handed on.
#[verifier::external_body]
pub(crate) fn insert_header(
    headers: &mut reqwest::header::HeaderMap,
    name: &'static str,
    value: reqwest::header::HeaderValue,
)
    requires
        is_plain_header_name(name@),
        header_entries(*old(headers)).dom().finite(),
        header_entries(*old(headers)).dom().len() <= 1000,
    ensures
        header_entries(*final(headers)) == header_entries(*old(headers)).insert(
            header_key(name@),
            seq![header_bytes(value)],
        ),
{
    headers.insert(name, value);
}

/// `HeaderValue::from_static` makes a value of a text of visible ASCII
/// characters. It panics on other texts.
#[verifier::external_body]
pub(crate) fn static_value(s: &'static str) -> (value: reqwest::header::HeaderValue)
    requires
        forall|i: int| 0 <= i < s@.len() ==> is_visible_ascii(#[trigger] s@[i]),
    ensures
        header_bytes(value) == encode_utf8(s@),
{
    reqwest::header::HeaderValue::from_static(s)
}

/// `HeaderValue::from_str` makes a value of the bytes of a text, and refuses it
/// exactly where one of these bytes is a control byte other than a tab. Every
/// byte of a character beyond ASCII is 128 or larger, so this can be said of the
/// characters.
#[verifier::external_body]
pub(crate) fn text_value(s: &str) -> (value: Result<
    reqwest::header::HeaderValue,
    reqwest::header::InvalidHeaderValue,
>)
    ensures
        match value {
            Ok(value) => is_header_text(s@) && header_bytes(value) == encode_utf8(s@),
            Err(_) => !is_header_text(s@),
        },
{
    reqwest::header::HeaderValue::from_str(s)
}

/// `InvalidHeaderValue` always shows the same text.
#[verifier::external_body]
pub(crate) fn invalid_value_text(error: &reqwest::header::InvalidHeaderValue) -> (shown: String)
    ensures
        shown@ == "failed to parse header value"@,
{
    error.to_string()
}

/// `StatusCode::from_u16` and its `Display` show a status code. The text is a
/// function of the code; codes below 100 or above 999 have none.
#[verifier::external_body]
pub(crate) fn status_text(code: u16) -> (shown: String)
    requires
        100 <= code <= 999,
    ensures
        shown@ == status_line(code),
{
    reqwest::StatusCode::from_u16(code).unwrap().to_string()
}

}
