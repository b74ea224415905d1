//! The language choice stored in the request's language cookie.

use vstd::prelude::*;

use crate::http_context::{spec_find_cookie, HttpContext};

verus! {

/// Name of the cookie that stores the chosen language.
pub const COOKIE_LANGUAGE: &'static str = "lang";

/// Access to the language stored in the request's cookie.
pub trait GetCookieLanguage {
    fn get_cookie_language(&self) -> Option<String>;
}

impl GetCookieLanguage for HttpContext {
    /// The value of the language cookie, if the request carries one.
    fn get_cookie_language(&self) -> (r: Option<String>)
        ensures
            r is None <==> spec_find_cookie(self.request.cookies@, COOKIE_LANGUAGE@) is None,
            r matches Some(v) ==> Some(v@) == spec_find_cookie(
                self.request.cookies@,
                COOKIE_LANGUAGE@,
            ),
    {
        match self.request.get_cookie(COOKIE_LANGUAGE) {
            Some(language) => Some(language.clone()),
            None => None,
        }
    }
}

} // verus!
