//! Header maps of the `http` crate, as verified code sees them.
//!
//! A header map is modelled as a finite map from header names, in lower
//! case, to the bytes of the first value stored under each name. The few
//! operations the library needs are trusted wrappers stated over that model.
use vstd::prelude::*;
use vstd::string::*;

verus! {

/// `http::HeaderMap`, carried through verified code as an opaque value.
#[verifier::external_type_specification]
#[verifier::external_body]
#[verifier::reject_recursive_types(T)]
pub struct ExHeaderMap<T>(http::HeaderMap<T>);

/// `http::HeaderValue`, carried through verified code as an opaque value.
#[verifier::external_type_specification]
#[verifier::external_body]
pub struct ExHeaderValue(http::HeaderValue);

/// What a header map holds: for each header name that has a value, in lower
/// case, the bytes of its first value.
pub uninterp spec fn header_entries(m: http::HeaderMap) -> Map<Seq<char>, Seq<u8>>;

/// The number of distinct header names in a header map.
pub uninterp spec fn header_count(m: http::HeaderMap) -> nat;

/// The bytes of a header value.
pub uninterp spec fn header_bytes(v: http::HeaderValue) -> Seq<u8>;

/// Whether a character may occur in a header name: an ASCII letter or digit,
/// or one of the marks that the grammar of HTTP tokens admits.
pub open spec fn is_name_char(c: char) -> bool {
    ||| 'a' <= c <= 'z'
    ||| 'A' <= c <= 'Z'
    ||| '0' <= c <= '9'
    ||| c == '!' || c == '#' || c == '$' || c == '%' || c == '&' || c == '\'' || c == '*'
    ||| c == '+' || c == '-' || c == '.' || c == '^' || c == '_' || c == '`' || c == '|'
    ||| c == '~'
}

/// Whether a text is a header name that fits the short form of the `http`
/// crate: between 1 and 64 characters, each of them admitted in a name.
pub open spec fn is_header_name(name: Seq<char>) -> bool {
    &&& 1 <= name.len() <= 64
    &&& forall|i: int| 0 <= i < name.len() ==> is_name_char(#[trigger] name[i])
}

/// A character with an ASCII capital letter turned into its small letter.
pub open spec fn lower_char(c: char) -> char {
    if 'A' <= c <= 'Z' {
        ((c as u8) + 32) as char
    } else {
        c
    }
}

/// A header name in lower case, the form under which a header map files it.
pub open spec fn lowered(name: Seq<char>) -> Seq<char> {
    Seq::new(name.len(), |i: int| lower_char(name[i]))
}

/// Whether a byte may occur in a header value: any byte from 32 upwards but
/// 127, and the tab.
pub open spec fn is_value_byte(b: u8) -> bool {
    (b >= 32 && b != 127) || b == 9
}

/// Whether every byte may occur in a header value.
pub open spec fn is_value_bytes(bytes: Seq<u8>) -> bool {
    forall|i: int| 0 <= i < bytes.len() ==> is_value_byte(#[trigger] bytes[i])
}

/// Whether a text can be sent as a header value.
pub open spec fn is_value_text(s: Seq<char>) -> bool {
    is_value_bytes(vstd::utf8::encode_utf8(s))
}

/// Whether every byte is a visible ASCII character, a space or a tab.
pub open spec fn is_visible_bytes(bytes: Seq<u8>) -> bool {
    forall|i: int|
        0 <= i < bytes.len() ==> (32 <= #[trigger] bytes[i] < 127 || bytes[i] == 9)
}

/// The bytes read as ASCII characters.
pub open spec fn ascii_text(bytes: Seq<u8>) -> Seq<char> {
    Seq::new(bytes.len(), |i: int| bytes[i] as char)
}

/// A header map without entries.
pub open spec fn empty_headers() -> Map<Seq<char>, Seq<u8>> {
    Map::empty()
}

/// `http::HeaderMap::new`: a map without entries.
#[verifier::external_body]
pub(crate) fn new_header_map() -> (m: http::HeaderMap)
    ensures
        header_entries(m) == empty_headers(),
        header_count(m) == 0,
{
    http::HeaderMap::new()
}

/// `http::HeaderValue::from_str`: accepts a text exactly when each of its
/// bytes may occur in a header value, and then holds those bytes.
#[verifier::external_body]
pub(crate) fn header_value(s: &str) -> (r: Option<http::HeaderValue>)
    ensures
        r is Some <==> is_value_text(s@),
        r matches Some(v) ==> header_bytes(v) == vstd::utf8::encode_utf8(s@),
{
    http::HeaderValue::from_str(s).ok()
}

/// `http::HeaderMap::insert` with a name given as a static string. The name
/// is filed in lower case, and the value takes the place of whatever was
/// stored under it. The call is kept away from names that the crate rejects
/// and from maps near the size at which it refuses to grow.
#[verifier::external_body]
pub(crate) fn insert_header(m: &mut http::HeaderMap, name: &'static str, value: http::HeaderValue)
    requires
        is_header_name(name@),
        header_count(*old(m)) < 1024,
    ensures
        header_entries(*final(m)) == header_entries(*old(m)).insert(
            lowered(name@),
            header_bytes(value),
        ),
        header_count(*final(m)) <= header_count(*old(m)) + 1,
{
    m.insert(name, value);
}

/// `http::HeaderMap::get` with a name given as a string: the first value
/// stored under the name, whatever the case of its letters.
#[verifier::external_body]
pub(crate) fn lookup_header<'a>(m: &'a http::HeaderMap, name: &str) -> (r: Option<
    &'a http::HeaderValue,
>)
    requires
        is_header_name(name@),
    ensures
        r is Some <==> header_entries(*m).contains_key(lowered(name@)),
        r matches Some(v) ==> header_bytes(*v) == header_entries(*m)[lowered(name@)],
{
    m.get(name)
}

/// `http::HeaderValue::to_str`: the value as text, where each of its bytes
/// is a visible ASCII character, a space or a tab.
#[verifier::external_body]
pub(crate) fn header_text(v: &http::HeaderValue) -> (r: Option<String>)
    ensures
        r is Some <==> is_visible_bytes(header_bytes(*v)),
        r matches Some(s) ==> s@ == ascii_text(header_bytes(*v)),
{
    match v.to_str() {
        Ok(s) => Some(s.to_string()),
        Err(_) => None,
    }
}

/// Whether a text can be sent as a header value.
pub fn is_wire_text(s: &str) -> (b: bool)
    ensures
        b == is_value_text(s@),
{
    let bytes = s.as_bytes();
    let mut i: usize = 0;
    while i < bytes.len()
        invariant
            i <= bytes.len(),
            bytes@ == vstd::utf8::encode_utf8(s@),
            forall|j: int| 0 <= j < i ==> is_value_byte(#[trigger] bytes@[j]),
        decreases bytes.len() - i,
    {
        let b = bytes[i];
        if !((b >= 32 && b != 127) || b == 9) {
            return false;
        }
        i = i + 1;
    }
    true
}

} // verus!
