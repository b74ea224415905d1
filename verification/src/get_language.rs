//! Language negotiation: the `Accept-Language` header, the language cookie,
//! and the choice of a preferred language among those a caller supports.

mod get_accept_language;
mod get_cookie_click_parameter;
mod get_cookie_language;
mod get_preferred_language;

pub use get_accept_language::{get_ordered_iso2_languages, spec_accept_languages,
    spec_ordered_iso2_languages, GetAcceptLanguage, ACCEPT_LANGUAGE};
pub use get_cookie_click_parameter::GetCookieClickParameter;
pub use get_cookie_language::{GetCookieLanguage, COOKIE_LANGUAGE};
pub use get_preferred_language::{spec_preferred_language, GetPreferredLanguage, DEFAULT_LANGUAGE};
