//! The language served to a request: the cookie choice when it is
//! supported, else the first supported language of the negotiation header,
//! else the default.

use vstd::prelude::*;

use crate::get_language::get_accept_language::{spec_accept_languages, GetAcceptLanguage};
use crate::get_language::get_cookie_language::{GetCookieLanguage, COOKIE_LANGUAGE};
use crate::http_context::{spec_find_cookie, HttpContext};
use crate::text::str_eq;

verus! {

/// The language served when nothing better is asked for or supported.
pub const DEFAULT_LANGUAGE: &'static str = "en";

/// True when `lang` is one of the supported languages.
pub open spec fn spec_supported_contains(supported: Seq<Seq<char>>, lang: Seq<char>) -> bool {
    exists|i: int| 0 <= i < supported.len() && supported[i] == lang
}

/// The first of the requested languages that is supported, if any.
pub open spec fn spec_first_supported(langs: Seq<Seq<char>>, supported: Seq<Seq<char>>) -> Option<
    Seq<char>,
>
    decreases langs.len(),
{
    if langs.len() == 0 {
        None
    } else if spec_supported_contains(supported, langs[0]) {
        Some(langs[0])
    } else {
        spec_first_supported(langs.drop_first(), supported)
    }
}

/// The language a request is served: the cookie language when supported,
/// the default when the cookie names an unsupported one, else the first
/// supported language of the negotiation header, else the default.
pub open spec fn spec_preferred_language(
    req: crate::http_context::HttpRequest,
    supported: Seq<Seq<char>>,
) -> Seq<char> {
    match spec_find_cookie(req.cookies@, COOKIE_LANGUAGE@) {
        Some(lang) => if spec_supported_contains(supported, lang) {
            lang
        } else {
            DEFAULT_LANGUAGE@
        },
        None => match spec_accept_languages(req) {
            Some(langs) => match spec_first_supported(langs, supported) {
                Some(lang) => lang,
                None => DEFAULT_LANGUAGE@,
            },
            None => DEFAULT_LANGUAGE@,
        },
    }
}

/// Decides whether a language is among the supported ones.
fn contains_language(supported: &Vec<&str>, lang: &str) -> (r: bool)
    ensures
        r == spec_supported_contains(supported.deep_view(), lang@),
{
    let n = supported.len();
    for i in 0..n
        invariant
            n == supported@.len(),
            forall|j: int| 0 <= j < i ==> supported.deep_view()[j] != lang@,
    {
        proof {
            assert(supported.deep_view()[i as int] == supported@[i as int]@);
        }
        if str_eq(supported[i], lang) {
            return true;
        }
    }
    false
}

/// Access to the language a request should be served.
pub trait GetPreferredLanguage {
    fn get_preferred_language(&self, supported_languages: Vec<&str>) -> String;
}

impl GetPreferredLanguage for HttpContext {
    /// Picks the served language from the cookie, the negotiation header
    /// and the default, in that order.
    fn get_preferred_language(&self, supported_languages: Vec<&str>) -> (r: String)
        ensures
            r@ == spec_preferred_language(self.request, supported_languages.deep_view()),
    {
        let ghost supported = supported_languages.deep_view();
        let cookie_language = self.get_cookie_language();
        match cookie_language {
            Some(language) => {
                if contains_language(&supported_languages, language.as_str()) {
                    return language;
                }
                return DEFAULT_LANGUAGE.to_owned();
            },
            None => {},
        }
        let accept_languages = self.get_accept_language();
        match accept_languages {
            Some(languages) => {
                let ghost langs = languages.deep_view();
                let n = languages.len();
                proof {
                    assert(langs.skip(0) =~= langs);
                }
                for i in 0..n
                    invariant
                        n == languages@.len(),
                        langs == languages.deep_view(),
                        supported == supported_languages.deep_view(),
                        spec_find_cookie(self.request.cookies@, COOKIE_LANGUAGE@) is None,
                        spec_accept_languages(self.request) == Some(langs),
                        spec_first_supported(langs, supported) == spec_first_supported(
                            langs.skip(i as int),
                            supported,
                        ),
                {
                    let ghost rest = langs.skip(i as int);
                    proof {
                        assert(rest[0] == langs[i as int]);
                        assert(langs[i as int] == languages@[i as int]@);
                        assert(rest.drop_first() =~= langs.skip(i as int + 1));
                    }
                    if contains_language(&supported_languages, languages[i].as_str()) {
                        proof {
                            assert(spec_supported_contains(supported, rest[0]));
                            assert(spec_first_supported(rest, supported) == Some(rest[0]));
                        }
                        return languages[i].clone();
                    }
                }
                proof {
                    assert(langs.skip(n as int) =~= Seq::<Seq<char>>::empty());
                }
            },
            None => {},
        }
        DEFAULT_LANGUAGE.to_owned()
    }
}

} // verus!
