//! General cookie access on the request context.

use vstd::prelude::*;

use crate::http_context::{spec_find_cookie, HttpContext};

verus! {

/// Access to a named cookie of the request.
pub trait GetCookie {
    fn get_cookie(&self, name: &str) -> Option<String>;
}

impl GetCookie for HttpContext {
    /// The value of the named cookie, if the request carries one.
    fn get_cookie(&self, name: &str) -> (r: Option<String>)
        ensures
            r is None <==> spec_find_cookie(self.request.cookies@, name@) is None,
            r matches Some(v) ==> Some(v@) == spec_find_cookie(self.request.cookies@, name@),
    {
        match self.request.get_cookie(name) {
            Some(value) => Some(value.clone()),
            None => None,
        }
    }
}

} // verus!
