//! The authentication state machine run once per request and per configured
//! scheme.  A pass has two phases around the asynchronous store lookup,
//! which the surrounding server performs:
//!
//! 1. planning — extract the token and match its scheme against the
//!    configured one; only a matching token asks for a lookup;
//! 2. completion — a miss passes the request through untouched, a hit
//!    writes the brand tag to the side channel and attaches credentials.
//!
//! Requests that present no token, a malformed token or a foreign scheme
//! all pass through silently; whether anonymous access is acceptable is the
//! downstream authorization layer's decision.  The store's answer arrives
//! here as a plain option: the caller maps a lookup failure to a miss, so
//! resolution fails open and the request still passes through.

use vstd::prelude::*;
use vstd::string::StrSliceExecFns;
use vstd::utf8::{decode_utf8, encode_utf8, valid_utf8};

use crate::get_client_id::KV_BRAND_ID;
use crate::http_context::{
    lemma_set_key_value_reads_back, spec_find_header, spec_find_key_value, HttpContext,
};
use crate::middlewares::get_session_token::{
    extract_token_scheme, spec_extract_scheme, spec_extract_token, AuthScheme, API_KEY_HEADER,
    AUTH_HEADER,
};
use crate::middlewares::request_creds::TradingPlatformRequestCredentials;
use crate::middlewares::session_entity::{AuthEntity, SessionEntityTrait};
use crate::text::string_from_utf8;

verus! {

/// What the planning phase decided about one request.
#[derive(Clone, Debug)]
pub enum TokenDecision {
    /// No usable token was presented; pass through.
    NoToken,
    /// A token was presented under a scheme this middleware is not
    /// configured for; pass through without a lookup.
    WrongScheme,
    /// Look this token up in the store.
    UseToken(String),
}

/// The token and scheme a request presents to a middleware configured for
/// the given scheme.  A bearer middleware reads the `Authorization`-style
/// header; an API-key middleware reads the dedicated key header, whose raw
/// value always counts as the API-key scheme.  A token whose bytes are not
/// well-formed text counts as no token at all.
pub open spec fn spec_extracted(req: crate::http_context::HttpRequest, configured: AuthScheme) -> Option<
    (Seq<char>, AuthScheme),
> {
    if configured is Bearer {
        match spec_find_header(req.headers@, AUTH_HEADER@) {
            None => None,
            Some(value) => match spec_extract_token(value) {
                None => None,
                Some(token) => if valid_utf8(token) {
                    Some((decode_utf8(token), spec_extract_scheme(value)))
                } else {
                    None
                },
            },
        }
    } else {
        match spec_find_header(req.headers@, API_KEY_HEADER@) {
            None => None,
            Some(value) => if valid_utf8(value) {
                Some((decode_utf8(value), AuthScheme::ApiKey))
            } else {
                None
            },
        }
    }
}

/// The token that is sent to the store, if any: the extracted token when
/// its scheme matches the configured one.
pub open spec fn spec_lookup_token(req: crate::http_context::HttpRequest, configured: AuthScheme) -> Option<
    Seq<char>,
> {
    match spec_extracted(req, configured) {
        Some((token, scheme)) => if scheme == configured {
            Some(token)
        } else {
            None
        },
        None => None,
    }
}

/// True when a token was presented under a foreign scheme.
pub open spec fn spec_scheme_mismatch(req: crate::http_context::HttpRequest, configured: AuthScheme) -> bool {
    match spec_extracted(req, configured) {
        Some((token, scheme)) => scheme != configured,
        None => false,
    }
}

/// Scheme dispatch over an already-extracted token: no token passes
/// through, a foreign scheme passes through without a lookup, and only a
/// matching scheme asks for one.
pub fn plan_lookup(extracted: Option<(String, AuthScheme)>, configured: AuthScheme) -> (r:
    TokenDecision)
    ensures
        match extracted {
            None => r is NoToken,
            Some((token, scheme)) => if scheme == configured {
                r matches TokenDecision::UseToken(t) && t == token
            } else {
                r is WrongScheme
            },
        },
{
    match extracted {
        None => TokenDecision::NoToken,
        Some((token, scheme)) => {
            if scheme == configured {
                TokenDecision::UseToken(token)
            } else {
                TokenDecision::WrongScheme
            }
        },
    }
}

/// Extracts the token a middleware configured for `configured` would see.
pub fn extract_for_scheme(ctx: &HttpContext, configured: AuthScheme) -> (r: Option<
    (String, AuthScheme)>)
    ensures
        r is None <==> spec_extracted(ctx.request, configured) is None,
        r matches Some((token, scheme)) ==> Some((token@, scheme)) == spec_extracted(
            ctx.request,
            configured,
        ),
{
    match configured {
        AuthScheme::Bearer => {
            let header = ctx.request.try_get_header_case_insensitive(AUTH_HEADER);
            match header {
                None => None,
                Some(value) => {
                    match extract_token_scheme(value.as_slice()) {
                        None => None,
                        Some((token, scheme)) => match string_from_utf8(token) {
                            Some(t) => Some((t, scheme)),
                            None => None,
                        },
                    }
                },
            }
        },
        AuthScheme::ApiKey => {
            let header = ctx.request.try_get_header_case_insensitive(API_KEY_HEADER);
            match header {
                None => None,
                Some(value) => match string_from_utf8(value.as_slice()) {
                    Some(t) => Some((t, AuthScheme::ApiKey)),
                    None => None,
                },
            }
        },
    }
}

/// The planning phase of one middleware pass: what the request presents,
/// dispatched against the configured scheme.
pub fn plan_auth(ctx: &HttpContext, configured: AuthScheme) -> (r: TokenDecision)
    ensures
        r is NoToken <==> spec_extracted(ctx.request, configured) is None,
        r is WrongScheme <==> spec_scheme_mismatch(ctx.request, configured),
        r matches TokenDecision::UseToken(t) ==> Some(t@) == spec_lookup_token(
            ctx.request,
            configured,
        ),
        r is UseToken <==> spec_lookup_token(ctx.request, configured) is Some,
{
    let extracted = extract_for_scheme(ctx, configured);
    plan_lookup(extracted, configured)
}

/// The completion phase of one middleware pass, fed the store's answer.
///
/// A miss leaves the context exactly as it was: authentication failure is
/// silent here, and the pipeline continues either way.  A hit writes the
/// entity's brand tag to the side channel, exactly once, and attaches
/// credentials wrapping the entity.
pub fn handle_lookup_result(ctx: &mut HttpContext, entity: Option<AuthEntity>)
    ensures
        entity is None ==> *final(ctx) == *old(ctx),
        entity matches Some(e) ==> {
            &&& final(ctx).request.headers == old(ctx).request.headers
            &&& final(ctx).request.cookies == old(ctx).request.cookies
            &&& final(ctx).request.key_values@.len() == old(ctx).request.key_values@.len() + 1
            &&& final(ctx).request.key_values@[0].0@ == KV_BRAND_ID@
            &&& final(ctx).request.key_values@[0].1@ == encode_utf8(e.spec_brand_id())
            &&& final(ctx).request.key_values@.drop_first() == old(ctx).request.key_values@
            &&& spec_find_key_value(final(ctx).request.key_values@, KV_BRAND_ID@) == Some(
                encode_utf8(e.spec_brand_id()),
            )
            &&& final(ctx).credentials == Some(spec_credentials_of(e))
        },
{
    match entity {
        None => {},
        Some(entity) => {
            let brand_id = entity.get_brand_id().to_owned();
            let brand_bytes = brand_id.as_str().as_bytes_vec();
            let key = KV_BRAND_ID.to_owned();
            proof {
                lemma_set_key_value_reads_back(ctx.request.key_values@, key, brand_bytes);
            }
            ctx.request.set_key_value(key, brand_bytes);
            ctx.credentials = Some(TradingPlatformRequestCredentials::new(entity));
        },
    }
}

/// The credentials a resolved entity is attached as.  They are a function
/// of the entity alone: two requests that resolve the same entity receive
/// value-equal credentials, however their contexts otherwise differ.
pub open spec fn spec_credentials_of(e: AuthEntity) -> TradingPlatformRequestCredentials<
    AuthEntity,
> {
    TradingPlatformRequestCredentials { session_entity: e }
}

/// Two requests that resolve the same entity end up with value-equal
/// credentials, identities and claims: what the completion phase attaches
/// is a function of the resolved entity alone, never of the rest of the
/// context, so concurrent resolutions of one token need share no state.
pub proof fn lemma_same_entity_value_equal_credentials(
    attached1: Option<TradingPlatformRequestCredentials<AuthEntity>>,
    attached2: Option<TradingPlatformRequestCredentials<AuthEntity>>,
    e: AuthEntity,
)
    requires
        attached1 == Some(spec_credentials_of(e)),
        attached2 == Some(spec_credentials_of(e)),
    ensures
        attached1 == attached2,
        attached1.unwrap().session_entity.spec_id() == attached2.unwrap().session_entity.spec_id(),
        attached1.unwrap().session_entity.spec_claims()
            == attached2.unwrap().session_entity.spec_claims(),
{
}

/// A foreign scheme never reaches the store: when the request's token was
/// presented under a scheme other than the configured one, there is no
/// token to look up.
pub proof fn lemma_scheme_mismatch_plans_no_lookup(
    req: crate::http_context::HttpRequest,
    configured: AuthScheme,
)
    requires
        spec_scheme_mismatch(req, configured),
    ensures
        spec_lookup_token(req, configured) is None,
{
}

} // verus!
