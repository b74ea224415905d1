//! The authentication middleware: token extraction, scheme dispatch, store
//! lookup orchestration, and credential attachment.

mod auth_error_factory;
mod auth_middleware;
mod get_cookie_parameter;
mod get_session_token;
mod request_creds;
mod session_entity;

pub use auth_error_factory::{AccessClaimRequired, AuthErrorFactoryWl};
pub use auth_middleware::{extract_for_scheme, handle_lookup_result,
    lemma_same_entity_value_equal_credentials, lemma_scheme_mismatch_plans_no_lookup, plan_auth,
    plan_lookup, spec_credentials_of, spec_extracted, spec_lookup_token, spec_scheme_mismatch,
    TokenDecision};
pub use get_cookie_parameter::GetCookieParameter;
pub use get_session_token::{extract_token, extract_token_scheme, spec_extract_scheme,
    spec_extract_token, spec_session_api_key, spec_session_token, AuthScheme, GetSessionApiKey, GetSessionToken, API_KEY_HEADER,
    AUTH_HEADER};
pub use request_creds::{spec_claims_expiry_in_range, RequestClaim,
    TradingPlatformRequestCredentials};
pub use session_entity::{AccessClaim, AuthEntity, OpenApiKeyEntity, SessionEntity,
    SessionEntityTrait, SESSION_PARTITION_KEY_VALUE};
