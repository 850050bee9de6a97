//! The HTTP headers of a request to the player's remote-control server.

use vstd::prelude::*;
use reqwest::header::HeaderMap;
use vstd::string::StringSliceAdditionalSpecFns;

verus! {

/// Declares `reqwest::header::HeaderMap` to Verus as an opaque type.
#[verifier::external_type_specification]
#[verifier::external_body]
#[verifier::reject_recursive_types(T)]
pub struct ExHeaderMap<T>(reqwest::header::HeaderMap<T>);

/// Declares `reqwest::header::HeaderValue` to Verus as an opaque type.
#[verifier::external_type_specification]
#[verifier::external_body]
pub struct ExHeaderValue(reqwest::header::HeaderValue);

/// Whether a byte may stand in an HTTP header value, as `http` checks it:
/// visible ASCII, any byte from 0x80 up, or a tab.
pub open spec fn header_byte_ok(b: u8) -> bool {
    (b >= 32 && b != 127) || b == 9
}

/// Whether a string may be an HTTP header value.
pub open spec fn header_value_ok(s: &str) -> bool {
    forall|i: int| 0 <= i < s.spec_bytes().len() ==> header_byte_ok(#[trigger] s.spec_bytes()[i])
}

/// The entries of a header map: each header name (lower case) with the
/// bytes of its value.
pub uninterp spec fn header_entries(m: HeaderMap) -> Map<Seq<char>, Seq<u8>>;

/// The headers this crate sets.
pub enum HeaderField {
    ContentType,
    Authorization,
}

/// The lower-case name of a header.
pub open spec fn field_name(f: HeaderField) -> Seq<char> {
    match f {
        HeaderField::ContentType => "content-type"@,
        HeaderField::Authorization => "authorization"@,
    }
}

/// A header map with no entries.
pub open spec fn no_headers() -> Map<Seq<char>, Seq<u8>> {
    Map::empty()
}

/// Calls `HeaderMap::new`. The contract claims the new map is empty.
#[verifier::external_body]
fn new_header_map() -> (r: HeaderMap)
    ensures
        header_entries(r) == no_headers(),
{
    HeaderMap::new()
}

/// Parses `value` with `HeaderValue::from_str` and stores it under the
/// header's name with `HeaderMap::insert`. The contract claims what the
/// `http` source shows: a valid value parses, and insertion replaces any
/// value the name had. A map far below its capacity is required, since
/// `insert` panics at capacity.
#[verifier::external_body]
fn insert_header(map: &mut HeaderMap, field: HeaderField, value: &str)
    requires
        header_value_ok(value),
        header_entries(*old(map)).dom().finite(),
        header_entries(*old(map)).len() < 1024,
    ensures
        header_entries(*final(map)) == header_entries(*old(map)).insert(
            field_name(field),
            value.spec_bytes(),
        ),
{
    let v = reqwest::header::HeaderValue::from_str(value).unwrap();
    match field {
        HeaderField::ContentType => map.insert(reqwest::header::CONTENT_TYPE, v),
        HeaderField::Authorization => map.insert(reqwest::header::AUTHORIZATION, v),
    };
}

/// Whether every byte of `s` may stand in a header value.
pub fn is_header_value(s: &str) -> (r: bool)
    ensures
        r == header_value_ok(s),
{
    let bytes = s.as_bytes();
    let n = bytes.len();
    let mut i: usize = 0;
    while i < n
        invariant
            bytes@ == s.spec_bytes(),
            n == bytes@.len(),
            i <= n,
            forall|k: int| 0 <= k < i ==> header_byte_ok(#[trigger] s.spec_bytes()[k]),
        decreases n - i,
    {
        let b = bytes[i];
        if !((b >= 32 && b != 127) || b == 9) {
            assert(!header_byte_ok(s.spec_bytes()[i as int]));
            return false;
        }
        i = i + 1;
    }
    true
}

/// The headers of a request to the remote-control server: the content type
/// and the given authorization.
pub fn create_header(auth: &str) -> (r: HeaderMap)
    requires
        header_value_ok(auth),
    ensures
        header_entries(r) == no_headers()
            .insert("content-type"@, "Content-Type: application/json".spec_bytes())
            .insert("authorization"@, auth.spec_bytes()),
{
    let content_type = "Content-Type: application/json";
    proof {
        reveal_strlit("Content-Type: application/json");
        broadcast use vstd::string::is_ascii_spec_bytes;
        assert(vstd::string::is_ascii(content_type));
        assert forall|i: int| 0 <= i < content_type.spec_bytes().len() implies header_byte_ok(
            #[trigger] content_type.spec_bytes()[i],
        ) by {
            assert(content_type.spec_bytes()[i] == content_type@[i] as u8);
        }
    }
    let mut headers = new_header_map();
    insert_header(&mut headers, HeaderField::ContentType, content_type);
    insert_header(&mut headers, HeaderField::Authorization, auth);
    headers
}

} // verus!
