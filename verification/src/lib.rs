//! Request-authentication helpers for an HTTP service: extraction of bearer
//! tokens and API keys from request headers, resolution of the token against
//! a session/key store, attachment of a credentials object to the request
//! context, and the surrounding request-validation utilities.

pub mod api_result_status;
pub mod cookie;
pub mod date_time;
pub mod get_client_id;
pub mod get_language;
pub mod header;
pub mod http_context;
pub mod http_fail;
pub mod json;
pub mod middlewares;
pub mod text;
pub mod validators;

pub use api_result_status::{ApiHttpResult, ApiHttpResultWithData, ApiResultStatus};
pub use cookie::GetCookie;
pub use date_time::DateTimeAsMicroseconds;
pub use get_client_id::{GetBrandId, GetClientId, KV_BRAND_ID};
pub use get_language::{get_ordered_iso2_languages, GetAcceptLanguage, GetCookieClickParameter,
    GetCookieLanguage, GetPreferredLanguage, ACCEPT_LANGUAGE, COOKIE_LANGUAGE, DEFAULT_LANGUAGE};
pub use header::{required_header_is_missing, GetHeader, HEADER_CF_IP_COUNTRY, HEADER_SITE_VER,
    HEADER_USER_AGENT};
pub use http_context::{HttpContext, HttpRequest};
pub use http_fail::{HttpFailResult, WebContentType};
pub use middlewares::{extract_token, AuthScheme, GetSessionApiKey, GetSessionToken};
pub use validators::{contains_no_space_characters, contains_special_symbol,
    contains_upper_letter, create_fail_http_result, is_cyrillic, validate_address,
    validate_address_optional, validate_city, validate_city_optional, validate_date_of_birth,
    validate_date_of_birth_optional, validate_email, validate_email_optional,
    validate_email_text, validate_latin_letters_only, validate_latin_letters_with_spaces,
    validate_max, validate_min, validate_name, validate_name_optional,
    validate_name_with_spaces, validate_name_with_spaces_optional, validate_no_cyrillic,
    validate_no_trimm_spaces, validate_non_empty, validate_non_empty_text, validate_password,
    validate_password_conditions, validate_phone, validate_phone_optional, validate_phone_text,
    validate_zip_code, validate_zip_code_optional};
