//! Request headers, held in the HTTP crate's header map.
//!
//! A header name is a token of at most 65535 characters and is stored in
//! lower case; a value is any text without control characters but tab.
//! Setting a name that is already present replaces all of its values.

use vstd::prelude::*;
use vstd::utf8::encode_utf8;

verus! {

/// The HTTP crate's header map (`reqwest::header::HeaderMap`), opaque here.
#[verifier::external_type_specification]
#[verifier::external_body]
#[verifier::reject_recursive_types(T)]
pub struct ExHeaderMap<T>(reqwest::header::HeaderMap<T>);

/// A parsed header name (`reqwest::header::HeaderName`), opaque here.
#[verifier::external_type_specification]
#[verifier::external_body]
pub struct ExHeaderName(reqwest::header::HeaderName);

/// A parsed header value (`reqwest::header::HeaderValue`), opaque here.
#[verifier::external_type_specification]
#[verifier::external_body]
pub struct ExHeaderValue(reqwest::header::HeaderValue);

/// What a header map holds: for each name (in lower case), the bytes of its
/// values in order.
pub uninterp spec fn header_entries(m: reqwest::header::HeaderMap) -> Map<Seq<char>, Seq<Seq<u8>>>;

/// The text of a header name, as `HeaderName::as_str` gives it.
pub uninterp spec fn header_name_text(n: reqwest::header::HeaderName) -> Seq<char>;

/// The bytes of a header value, as `HeaderValue::as_bytes` gives them.
pub uninterp spec fn header_value_bytes(v: reqwest::header::HeaderValue) -> Seq<u8>;

/// The most distinct header names a request may carry.
pub const HEADER_LIMIT: usize = 3000;

/// A character that may stand in a header name.
pub open spec fn is_name_char(c: char) -> bool {
    ||| ('a' <= c && c <= 'z')
    ||| ('A' <= c && c <= 'Z')
    ||| ('0' <= c && c <= '9')
    ||| c == '!' || c == '"' || c == '#' || c == '$' || c == '%' || c == '&'
    ||| c == '\'' || c == '*' || c == '+' || c == '-' || c == '.' || c == '^'
    ||| c == '_' || c == '`' || c == '|' || c == '~'
}

/// A well-formed header name: 1 to 65535 name characters.
pub open spec fn valid_header_name(s: Seq<char>) -> bool {
    &&& 0 < s.len() <= 65535
    &&& forall|i: int| 0 <= i < s.len() ==> is_name_char(#[trigger] s[i])
}

/// A character that may stand in a header value: no control character but tab.
pub open spec fn is_value_char(c: char) -> bool {
    c == '\t' || (' ' <= c && c != '\x7f')
}

/// A well-formed header value.
pub open spec fn valid_header_value(s: Seq<char>) -> bool {
    forall|i: int| 0 <= i < s.len() ==> is_value_char(#[trigger] s[i])
}

pub open spec fn lower_char(c: char) -> char {
    if 'A' <= c && c <= 'Z' {
        ((c as u32) + 32) as char
    } else {
        c
    }
}

/// A header name as it is stored: in ASCII lower case.
pub open spec fn lower_name(s: Seq<char>) -> Seq<char> {
    Seq::new(s.len(), |i: int| lower_char(s[i]))
}

/// Why a header could not be set.
#[derive(Clone, Copy, Debug, PartialEq, Eq, Structural)]
pub enum HeaderError {
    /// The name is empty, too long, or holds a character outside the token set.
    InvalidName,
    /// The value holds a control character other than tab.
    InvalidValue,
    /// The request already carries the most header names it may.
    TooMany,
}

/// The outcome of setting `key: value` on headers that hold `entries`.
pub open spec fn header_check(
    entries: Map<Seq<char>, Seq<Seq<u8>>>,
    key: Seq<char>,
    value: Seq<char>,
) -> Result<(), HeaderError> {
    if !valid_header_name(key) {
        Err(HeaderError::InvalidName)
    } else if !valid_header_value(value) {
        Err(HeaderError::InvalidValue)
    } else if entries.dom().len() >= HEADER_LIMIT {
        Err(HeaderError::TooMany)
    } else {
        Ok(())
    }
}

/// The headers after setting `key: value`: the name's values are replaced by
/// this one.
pub open spec fn with_entry(
    entries: Map<Seq<char>, Seq<Seq<u8>>>,
    key: Seq<char>,
    value: Seq<char>,
) -> Map<Seq<char>, Seq<Seq<u8>>> {
    entries.insert(lower_name(key), seq![encode_utf8(value)])
}

/// Relies on `HeaderMap::new`: a new map is empty.
#[verifier::external_body]
pub(crate) fn empty_headers() -> (r: reqwest::header::HeaderMap)
    ensures
        header_entries(r).dom() == Set::<Seq<char>>::empty(),
{
    reqwest::header::HeaderMap::new()
}

/// Relies on `HeaderMap::keys_len`: the number of distinct names.
#[verifier::external_body]
fn count_names(m: &reqwest::header::HeaderMap) -> (r: usize)
    ensures
        r == header_entries(*m).dom().len(),
{
    m.keys_len()
}

/// Relies on `HeaderMap::insert`: the name's earlier values are all removed
/// and the new one stands alone. The insertion panics only when the map's
/// table would grow past its maximum size; with fewer than `HEADER_LIMIT`
/// names the table never grows that far.
#[verifier::external_body]
fn insert_header(
    m: &mut reqwest::header::HeaderMap,
    name: reqwest::header::HeaderName,
    value: reqwest::header::HeaderValue,
)
    requires
        header_entries(*old(m)).dom().len() < HEADER_LIMIT,
    ensures
        header_entries(*final(m)) == header_entries(*old(m)).insert(
            header_name_text(name),
            seq![header_value_bytes(value)],
        ),
{
    m.insert(name, value);
}

/// Relies on `HeaderName::from_str`: it accepts exactly the well-formed
/// names and stores them in lower case.
#[verifier::external_body]
fn parse_header_name(key: &str) -> (r: Option<reqwest::header::HeaderName>)
    ensures
        r.is_some() == valid_header_name(key@),
        r.is_some() ==> header_name_text(r.unwrap()) == lower_name(key@),
{
    <reqwest::header::HeaderName as std::str::FromStr>::from_str(key).ok()
}

/// Relies on `HeaderValue::from_str`: it accepts exactly the values without
/// control characters but tab, and keeps their bytes.
#[verifier::external_body]
fn parse_header_value(value: &str) -> (r: Option<reqwest::header::HeaderValue>)
    ensures
        r.is_some() == valid_header_value(value@),
        r.is_some() ==> header_value_bytes(r.unwrap()) == encode_utf8(value@),
{
    reqwest::header::HeaderValue::from_str(value).ok()
}

/// Sets `key: value` in the headers, replacing every earlier value of that
/// name; on an error the headers are left as they were.
pub fn set_header(headers: &mut reqwest::header::HeaderMap, key: &str, value: &str) -> (r: Result<
    (),
    HeaderError,
>)
    ensures
        r == header_check(header_entries(*old(headers)), key@, value@),
        r is Ok ==> header_entries(*final(headers)) == with_entry(
            header_entries(*old(headers)),
            key@,
            value@,
        ),
        r is Err ==> header_entries(*final(headers)) == header_entries(*old(headers)),
{
    let name = match parse_header_name(key) {
        Some(n) => n,
        None => return Err(HeaderError::InvalidName),
    };
    let val = match parse_header_value(value) {
        Some(v) => v,
        None => return Err(HeaderError::InvalidValue),
    };
    if count_names(headers) >= HEADER_LIMIT {
        return Err(HeaderError::TooMany);
    }
    insert_header(headers, name, val);
    Ok(())
}

/// Setting a header twice under one name, in any letter case, leaves only
/// the last value: the first setting leaves no trace.
pub proof fn setting_twice_keeps_last(
    entries: Map<Seq<char>, Seq<Seq<u8>>>,
    first_key: Seq<char>,
    first_value: Seq<char>,
    key: Seq<char>,
    value: Seq<char>,
)
    requires
        lower_name(first_key) == lower_name(key),
    ensures
        with_entry(with_entry(entries, first_key, first_value), key, value) == with_entry(
            entries,
            key,
            value,
        ),
        with_entry(with_entry(entries, first_key, first_value), key, value)[lower_name(key)]
            == seq![encode_utf8(value)],
{
    assert(with_entry(with_entry(entries, first_key, first_value), key, value) =~= with_entry(
        entries,
        key,
        value,
    ));
}

} // verus!
