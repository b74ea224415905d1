//! Extraction of the raw authentication token and its scheme tag from the
//! value of an `Authorization`-style header.
//!
//! The header value is expected to look like `<scheme> <token>`, with a fixed
//! six-byte scheme keyword matched case-insensitively.  A value that is long
//! enough but has no space at the scheme boundary is tolerated and treated as
//! a bare token under the default (bearer) scheme.

use vstd::prelude::*;
use vstd::utf8::{decode_utf8, valid_utf8};

use crate::http_context::{spec_find_header, HttpContext};
use crate::text::string_from_utf8;

verus! {

/// Name of the header that carries `<scheme> <token>` credentials.
pub const AUTH_HEADER: &'static str = "authorization";

/// Name of the dedicated header that carries a raw API key.
pub const API_KEY_HEADER: &'static str = "x-api-key";

/// The authentication scheme a token was presented under.
#[derive(Clone, Copy, Debug, PartialEq, Eq, Structural)]
pub enum AuthScheme {
    Bearer,
    ApiKey,
}

/// Lower-cases one ASCII byte; all other bytes are unchanged.
pub open spec fn spec_ascii_lower(b: u8) -> u8 {
    if 65 <= b && b <= 90 {
        (b + 32) as u8
    } else {
        b
    }
}

/// True when the six-byte scheme prefix spells the API-key keyword,
/// compared case-insensitively over ASCII.
pub open spec fn spec_is_api_key_keyword(p: Seq<u8>) -> bool {
    p.len() == 6
    && spec_ascii_lower(p[0]) == 97  // 'a'
    && spec_ascii_lower(p[1]) == 112  // 'p'
    && spec_ascii_lower(p[2]) == 105  // 'i'
    && spec_ascii_lower(p[3]) == 107  // 'k'
    && spec_ascii_lower(p[4]) == 101  // 'e'
    && spec_ascii_lower(p[5]) == 121  // 'y'
}

/// The scheme named by a six-byte keyword.  An unrecognized keyword counts
/// as the bearer scheme, so that older clients keep working.
pub open spec fn spec_scheme_of_keyword(p: Seq<u8>) -> AuthScheme {
    if spec_is_api_key_keyword(p) {
        AuthScheme::ApiKey
    } else {
        AuthScheme::Bearer
    }
}

/// The token carved out of a header value: everything after the first space
/// when the byte after the six-byte scheme prefix is a space, the whole value
/// otherwise, and nothing at all when the value is shorter than the prefix
/// plus its separator.
pub open spec fn spec_extract_token(src: Seq<u8>) -> Option<Seq<u8>> {
    if src.len() < 7 {
        None
    } else if src[6] == 32 {
        Some(src.subrange(7, src.len() as int))
    } else {
        Some(src)
    }
}

/// The scheme a header value presents its token under.  A bare token (no
/// space at the scheme boundary) defaults to the bearer scheme.
pub open spec fn spec_extract_scheme(src: Seq<u8>) -> AuthScheme {
    if src.len() >= 7 && src[6] == 32 {
        spec_scheme_of_keyword(src.subrange(0, 6))
    } else {
        AuthScheme::Bearer
    }
}

fn ascii_lower(b: u8) -> (r: u8)
    ensures
        r == spec_ascii_lower(b),
{
    if 65 <= b && b <= 90 {
        b + 32
    } else {
        b
    }
}

/// Matches a six-byte scheme prefix against the fixed keyword set.
fn scheme_of_keyword(p: &[u8]) -> (r: AuthScheme)
    requires
        p@.len() == 6,
    ensures
        r == spec_scheme_of_keyword(p@),
{
    let is_api_key = ascii_lower(*vstd::slice::slice_index_get(p, 0)) == 97
        && ascii_lower(*vstd::slice::slice_index_get(p, 1)) == 112
        && ascii_lower(*vstd::slice::slice_index_get(p, 2)) == 105
        && ascii_lower(*vstd::slice::slice_index_get(p, 3)) == 107
        && ascii_lower(*vstd::slice::slice_index_get(p, 4)) == 101
        && ascii_lower(*vstd::slice::slice_index_get(p, 5)) == 121;
    if is_api_key {
        AuthScheme::ApiKey
    } else {
        AuthScheme::Bearer
    }
}

/// Carves the raw token out of an `Authorization`-style header value.
///
/// A value shorter than the scheme prefix plus its separator yields nothing.
/// When the byte after the six-byte scheme keyword is a space the token is
/// everything after that space; otherwise the whole value is the token.
pub fn extract_token(src: &[u8]) -> (r: Option<&[u8]>)
    ensures
        r is None <==> spec_extract_token(src@) is None,
        r matches Some(t) ==> t@ == spec_extract_token(src@).unwrap(),
{
    if src.len() < 7 {
        return None;
    }
    if *vstd::slice::slice_index_get(src, 6) == 32 {
        return Some(vstd::slice::slice_subrange(src, 7, src.len()));
    }
    Some(src)
}

/// Carves the raw token out of a header value together with the scheme it was
/// presented under.
pub fn extract_token_scheme(src: &[u8]) -> (r: Option<(&[u8], AuthScheme)>)
    ensures
        r is None <==> spec_extract_token(src@) is None,
        r matches Some((t, s)) ==> (t@ == spec_extract_token(src@).unwrap()
            && s == spec_extract_scheme(src@)),
{
    if src.len() < 7 {
        return None;
    }
    if *vstd::slice::slice_index_get(src, 6) == 32 {
        let scheme = scheme_of_keyword(vstd::slice::slice_subrange(src, 0, 6));
        return Some((vstd::slice::slice_subrange(src, 7, src.len()), scheme));
    }
    Some((src, AuthScheme::Bearer))
}

/// The session token a request presents: the token carved out of the
/// `Authorization`-style header, decoded as text.  Malformed bytes count
/// the same as an absent header.
pub open spec fn spec_session_token(req: crate::http_context::HttpRequest) -> Option<Seq<char>> {
    match spec_find_header(req.headers@, AUTH_HEADER@) {
        None => None,
        Some(value) => match spec_extract_token(value) {
            None => None,
            Some(token) => if valid_utf8(token) {
                Some(decode_utf8(token))
            } else {
                None
            },
        },
    }
}

/// The API key a request presents: the raw value of the dedicated key
/// header, decoded as text.  Malformed bytes count the same as an absent
/// header.
pub open spec fn spec_session_api_key(req: crate::http_context::HttpRequest) -> Option<Seq<char>> {
    match spec_find_header(req.headers@, API_KEY_HEADER@) {
        None => None,
        Some(value) => if valid_utf8(value) {
            Some(decode_utf8(value))
        } else {
            None
        },
    }
}

/// Access to the session token presented by a request.
pub trait GetSessionToken {
    fn get_session_token(&self) -> Option<String>;
}

/// Access to the API key presented by a request.
pub trait GetSessionApiKey {
    fn get_session_api_key(&self) -> Option<String>;
}

impl GetSessionToken for HttpContext {
    fn get_session_token(&self) -> (r: Option<String>)
        ensures
            r is None <==> spec_session_token(self.request) is None,
            r matches Some(t) ==> Some(t@) == spec_session_token(self.request),
    {
        let auth_header = self.request.try_get_header_case_insensitive(AUTH_HEADER)?;
        let token = extract_token(auth_header.as_slice())?;
        string_from_utf8(token)
    }
}

impl GetSessionApiKey for HttpContext {
    fn get_session_api_key(&self) -> (r: Option<String>)
        ensures
            r is None <==> spec_session_api_key(self.request) is None,
            r matches Some(t) ==> Some(t@) == spec_session_api_key(self.request),
    {
        let auth_header = self.request.try_get_header_case_insensitive(API_KEY_HEADER)?;
        string_from_utf8(auth_header.as_slice())
    }
}

} // verus!
