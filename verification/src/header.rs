//! The header builder: from a token to the headers of an authenticated
//! request.

use vstd::prelude::*;
use vstd::string::*;
use warp::http::header::InvalidHeaderValue;
use warp::http::{HeaderMap, HeaderValue};

use crate::error::ClientError;

verus! {

/// The header map of the `http` crate, as `warp` hands it on.
#[verifier::external_type_specification]
#[verifier::external_body]
#[verifier::reject_recursive_types(T)]
pub struct ExHeaderMap<T>(HeaderMap<T>);

/// The header value of the `http` crate: the type of what a header map
/// stores.
#[verifier::external_type_specification]
#[verifier::external_body]
pub struct ExHeaderValue(HeaderValue);

/// The error with which the `http` crate rejects a header value.
#[verifier::external_type_specification]
#[verifier::external_body]
pub struct ExInvalidHeaderValue(InvalidHeaderValue);

/// What a header map holds: for each header name, in lower case, the bytes
/// of the first value stored under it, as `HeaderMap::get` finds it.
pub uninterp spec fn header_map_values(map: HeaderMap) -> Map<Seq<char>, Seq<u8>>;

/// The bytes that the header encoder accepts in a value: horizontal tab,
/// and everything from space upwards except DEL.
pub open spec fn header_byte_accepted(b: u8) -> bool {
    b == 9 || (b >= 32 && b != 127)
}

/// Whether the header encoder accepts each of the given bytes.
pub open spec fn header_bytes_accepted(bytes: Seq<u8>) -> bool {
    forall|i: int| 0 <= i < bytes.len() ==> header_byte_accepted(#[trigger] bytes[i])
}

/// A text is accepted as a header value when each byte of its UTF-8
/// encoding is.
pub open spec fn header_value_accepted(text: Seq<char>) -> bool {
    header_bytes_accepted(vstd::utf8::encode_utf8(text))
}

/// The characters that may stand in a header value: horizontal tab, and
/// every character from space upwards except DEL.
pub open spec fn header_char_accepted(c: char) -> bool {
    c == '\t' || (c >= ' ' && c != '\x7f')
}

/// Whether each character of a text may stand in a header value.
pub open spec fn header_text_accepted(text: Seq<char>) -> bool {
    forall|i: int| 0 <= i < text.len() ==> header_char_accepted(#[trigger] text[i])
}

/// The name under which a header map stores the authorization header.
pub open spec fn authorization_name() -> Seq<char> {
    "authorization"@
}

/// What a map holds that stores nothing but `value` under the
/// authorization header.
pub open spec fn authorization_only(value: Seq<u8>) -> Map<Seq<char>, Seq<u8>> {
    Map::<Seq<char>, Seq<u8>>::empty().insert(authorization_name(), value)
}

/// The scheme prefix of a bearer token.
pub const BEARER: &'static str = "Bearer ";

/// Builds a map with the one header `authorization: <value>`, through
/// `HeaderValue::from_str`, `HeaderMap::new` and `HeaderMap::insert` of the
/// `http` crate. `from_str` rejects the value exactly when one of its bytes
/// is a control character other than tab; on a fresh map `insert` cannot
/// run out of room, and stores the value under the standard name.
#[verifier::external_body]
fn authorization_header_map(value: &str) -> (built: Result<HeaderMap, InvalidHeaderValue>)
    ensures
        built is Ok <==> header_value_accepted(value@),
        built matches Ok(map) ==> header_map_values(map) == authorization_only(value.spec_bytes()),
{
    let parsed = HeaderValue::from_str(value)?;
    let mut map = HeaderMap::new();
    map.insert(warp::http::header::AUTHORIZATION, parsed);
    Ok(map)
}

/// The header map of an authenticated request: what a map holding only
/// `authorization: Bearer <token>` holds.
pub open spec fn bearer_headers(token: Seq<char>) -> Map<Seq<char>, Seq<u8>> {
    authorization_only(vstd::utf8::encode_utf8(BEARER@ + token))
}

proof fn lemma_single_byte_scalar(v: u32)
    by (bit_vector)
    requires
        v <= 0x7F,
    ensures
        (v & 0x7F) as u8 == v,
{
}

proof fn lemma_marked_byte(mark: u8, low: u8)
    by (bit_vector)
    requires
        mark >= 0x80,
    ensures
        mark | low >= 0x80,
{
}

/// The bytes that encode one character are accepted exactly when the
/// character is: a character below 128 is its own single byte, and every
/// byte of a longer encoding has its top bit set.
proof fn lemma_char_bytes_accepted(c: char)
    ensures
        header_bytes_accepted(vstd::utf8::encode_scalar(c as u32)) <==> header_char_accepted(c),
{
    let v = c as u32;
    let bytes = vstd::utf8::encode_scalar(v);
    vstd::utf8::char_is_scalar(c);
    if vstd::utf8::has_width_1_encoding(v) {
        lemma_single_byte_scalar(v);
        assert(bytes[0] == v);
    } else {
        lemma_marked_byte(0xC0, ((v >> 6) & 0x1F) as u8);
        lemma_marked_byte(0xE0, ((v >> 12) & 0x0F) as u8);
        lemma_marked_byte(0xF0, ((v >> 18) & 0x7) as u8);
        lemma_marked_byte(0x80, (v & 0x3F) as u8);
        lemma_marked_byte(0x80, ((v >> 6) & 0x3F) as u8);
        lemma_marked_byte(0x80, ((v >> 12) & 0x3F) as u8);
        assert(v >= 0x80);
        assert(header_char_accepted(c));
        assert forall|i: int| 0 <= i < bytes.len() implies header_byte_accepted(
            #[trigger] bytes[i],
        ) by {
            assert(bytes[i] >= 0x80);
        }
    }
}

/// Bytes put one after the other are accepted exactly when both parts are.
proof fn lemma_bytes_accepted_concat(first: Seq<u8>, rest: Seq<u8>)
    ensures
        header_bytes_accepted(first + rest) <==> header_bytes_accepted(first)
            && header_bytes_accepted(rest),
{
    let all = first + rest;
    if header_bytes_accepted(all) {
        assert forall|i: int| 0 <= i < first.len() implies header_byte_accepted(
            #[trigger] first[i],
        ) by {
            assert(all[i] == first[i]);
        }
        assert forall|i: int| 0 <= i < rest.len() implies header_byte_accepted(
            #[trigger] rest[i],
        ) by {
            assert(all[first.len() + i] == rest[i]);
        }
    }
    if header_bytes_accepted(first) && header_bytes_accepted(rest) {
        assert forall|i: int| 0 <= i < all.len() implies header_byte_accepted(
            #[trigger] all[i],
        ) by {
            if i < first.len() {
                assert(all[i] == first[i]);
            } else {
                assert(all[i] == rest[i - first.len()]);
            }
        }
    }
}

/// The header encoder looks at bytes; the same can be said of characters:
/// a text is accepted exactly when each of its characters is a tab or no
/// control character.
pub proof fn lemma_header_value_by_chars(text: Seq<char>)
    ensures
        header_value_accepted(text) <==> header_text_accepted(text),
    decreases text.len(),
{
    if text.len() > 0 {
        let rest = text.drop_first();
        lemma_header_value_by_chars(rest);
        lemma_char_bytes_accepted(text[0]);
        lemma_bytes_accepted_concat(
            vstd::utf8::encode_scalar(text[0] as u32),
            vstd::utf8::encode_utf8(rest),
        );
        if header_text_accepted(text) {
            assert forall|i: int| 0 <= i < rest.len() implies header_char_accepted(
                #[trigger] rest[i],
            ) by {
                assert(rest[i] == text[i + 1]);
            }
        }
        if header_char_accepted(text[0]) && header_text_accepted(rest) {
            assert forall|i: int| 0 <= i < text.len() implies header_char_accepted(
                #[trigger] text[i],
            ) by {
                if i > 0 {
                    assert(text[i] == rest[i - 1]);
                }
            }
        }
    }
}

/// Putting the bearer prefix before a token changes nothing about whether
/// the header encoder accepts it.
pub proof fn lemma_bearer_prefix_accepted(token: Seq<char>)
    ensures
        header_value_accepted(BEARER@ + token) <==> header_text_accepted(token),
{
    reveal_strlit("Bearer ");
    let value = BEARER@ + token;
    lemma_header_value_by_chars(value);
    if header_text_accepted(value) {
        assert forall|i: int| 0 <= i < token.len() implies header_char_accepted(
            #[trigger] token[i],
        ) by {
            assert(value[BEARER@.len() + i] == token[i]);
        }
    }
    if header_text_accepted(token) {
        assert forall|i: int| 0 <= i < value.len() implies header_char_accepted(
            #[trigger] value[i],
        ) by {
            if i >= BEARER@.len() {
                assert(value[i] == token[i - BEARER@.len()]);
            }
        }
    }
}

/// Wraps a token into the headers of an authenticated request: a map with
/// the single entry `authorization: Bearer <token>`. The only failure is a
/// token that holds a control character other than tab, which the header
/// encoder rejects.
pub fn create_auth_header(token: String) -> (headers: Result<HeaderMap, ClientError>)
    ensures
        headers is Ok <==> header_text_accepted(token@),
        headers is Ok <==> header_value_accepted(BEARER@ + token@),
        headers matches Ok(map) ==> header_map_values(map) == bearer_headers(token@),
        headers matches Err(e) ==> e == ClientError::Encoding,
{
    proof {
        lemma_bearer_prefix_accepted(token@);
    }
    let mut value = String::from_str(BEARER);
    value.append(token.as_str());
    match authorization_header_map(value.as_str()) {
        Ok(map) => Ok(map),
        Err(_) => Err(ClientError::Encoding),
    }
}

} // verus!
