//! The per-request state this crate reads and writes: the request's headers,
//! cookies and key-value side channel, and the slot the resolved credentials
//! are attached to.  The surrounding HTTP server owns the real request; it
//! hands these plain values in and carries the mutations back out.

use vstd::prelude::*;

use crate::middlewares::{AuthEntity, TradingPlatformRequestCredentials};
use crate::text::{spec_str_eq_ignore_ascii_case, str_eq, str_eq_ignore_ascii_case};

verus! {

/// The value of the first header whose name equals `name` up to ASCII case.
pub open spec fn spec_find_header(headers: Seq<(String, Vec<u8>)>, name: Seq<char>) -> Option<
    Seq<u8>,
>
    decreases headers.len(),
{
    if headers.len() == 0 {
        None
    } else if spec_str_eq_ignore_ascii_case(headers[0].0@, name) {
        Some(headers[0].1@)
    } else {
        spec_find_header(headers.drop_first(), name)
    }
}

/// The value of the first cookie named exactly `name`.
pub open spec fn spec_find_cookie(cookies: Seq<(String, String)>, name: Seq<char>) -> Option<
    Seq<char>,
>
    decreases cookies.len(),
{
    if cookies.len() == 0 {
        None
    } else if cookies[0].0@ == name {
        Some(cookies[0].1@)
    } else {
        spec_find_cookie(cookies.drop_first(), name)
    }
}

/// The value of the first side-channel entry keyed exactly `key`.
pub open spec fn spec_find_key_value(kvs: Seq<(String, Vec<u8>)>, key: Seq<char>) -> Option<
    Seq<u8>,
>
    decreases kvs.len(),
{
    if kvs.len() == 0 {
        None
    } else if kvs[0].0@ == key {
        Some(kvs[0].1@)
    } else {
        spec_find_key_value(kvs.drop_first(), key)
    }
}

/// What this crate sees of an inbound request: headers, cookies, and the
/// key-value side channel it may write to.
pub struct HttpRequest {
    pub headers: Vec<(String, Vec<u8>)>,
    pub cookies: Vec<(String, String)>,
    pub key_values: Vec<(String, Vec<u8>)>,
}

/// The per-request context: the request data and the credentials slot.
pub struct HttpContext {
    pub request: HttpRequest,
    pub credentials: Option<TradingPlatformRequestCredentials<AuthEntity>>,
}

impl HttpRequest {
    /// A request carrying nothing at all.
    pub fn new() -> (r: Self)
        ensures
            r.headers@.len() == 0,
            r.cookies@.len() == 0,
            r.key_values@.len() == 0,
    {
        HttpRequest { headers: Vec::new(), cookies: Vec::new(), key_values: Vec::new() }
    }

    /// Looks a header up by name, case-insensitively; the first match wins.
    pub fn try_get_header_case_insensitive(&self, name: &str) -> (r: Option<&Vec<u8>>)
        ensures
            match r {
                Some(v) => spec_find_header(self.headers@, name@) == Some(v@),
                None => spec_find_header(self.headers@, name@) is None,
            },
    {
        let n = self.headers.len();
        proof {
            assert(self.headers@.skip(0) =~= self.headers@);
        }
        for i in 0..n
            invariant
                n == self.headers@.len(),
                spec_find_header(self.headers@, name@) == spec_find_header(
                    self.headers@.skip(i as int),
                    name@,
                ),
        {
            let ghost rest = self.headers@.skip(i as int);
            proof {
                assert(rest[0] == self.headers@[i as int]);
                assert(rest.drop_first() =~= self.headers@.skip(i as int + 1));
            }
            if str_eq_ignore_ascii_case(self.headers[i].0.as_str(), name) {
                return Some(&self.headers[i].1);
            }
        }
        proof {
            assert(self.headers@.skip(n as int) =~= Seq::<(String, Vec<u8>)>::empty());
        }
        None
    }

    /// Looks a cookie up by its exact name; the first match wins.
    pub fn get_cookie(&self, name: &str) -> (r: Option<&String>)
        ensures
            match r {
                Some(v) => spec_find_cookie(self.cookies@, name@) == Some(v@),
                None => spec_find_cookie(self.cookies@, name@) is None,
            },
    {
        let n = self.cookies.len();
        proof {
            assert(self.cookies@.skip(0) =~= self.cookies@);
        }
        for i in 0..n
            invariant
                n == self.cookies@.len(),
                spec_find_cookie(self.cookies@, name@) == spec_find_cookie(
                    self.cookies@.skip(i as int),
                    name@,
                ),
        {
            let ghost rest = self.cookies@.skip(i as int);
            proof {
                assert(rest[0] == self.cookies@[i as int]);
                assert(rest.drop_first() =~= self.cookies@.skip(i as int + 1));
            }
            if str_eq(self.cookies[i].0.as_str(), name) {
                return Some(&self.cookies[i].1);
            }
        }
        proof {
            assert(self.cookies@.skip(n as int) =~= Seq::<(String, String)>::empty());
        }
        None
    }

    /// Looks a side-channel entry up by its exact key; the first match wins.
    pub fn get_key_value(&self, key: &str) -> (r: Option<&Vec<u8>>)
        ensures
            match r {
                Some(v) => spec_find_key_value(self.key_values@, key@) == Some(v@),
                None => spec_find_key_value(self.key_values@, key@) is None,
            },
    {
        let n = self.key_values.len();
        proof {
            assert(self.key_values@.skip(0) =~= self.key_values@);
        }
        for i in 0..n
            invariant
                n == self.key_values@.len(),
                spec_find_key_value(self.key_values@, key@) == spec_find_key_value(
                    self.key_values@.skip(i as int),
                    key@,
                ),
        {
            let ghost rest = self.key_values@.skip(i as int);
            proof {
                assert(rest[0] == self.key_values@[i as int]);
                assert(rest.drop_first() =~= self.key_values@.skip(i as int + 1));
            }
            if str_eq(self.key_values[i].0.as_str(), key) {
                return Some(&self.key_values[i].1);
            }
        }
        proof {
            assert(self.key_values@.skip(n as int) =~= Seq::<(String, Vec<u8>)>::empty());
        }
        None
    }

    /// Writes a side-channel entry.  The new entry shadows any earlier one
    /// under the same key.
    pub fn set_key_value(&mut self, key: String, value: Vec<u8>)
        ensures
            final(self).headers == old(self).headers,
            final(self).cookies == old(self).cookies,
            final(self).key_values@ == old(self).key_values@.insert(0, (key, value)),
    {
        self.key_values.insert(0, (key, value));
    }
}

/// After a fresh write, the written key reads back as the written value.
pub broadcast proof fn lemma_set_key_value_reads_back(
    kvs: Seq<(String, Vec<u8>)>,
    key: String,
    value: Vec<u8>,
)
    ensures
        spec_find_key_value(#[trigger] kvs.insert(0, (key, value)), key@) == Some(value@),
{
    let updated = kvs.insert(0, (key, value));
    assert(updated[0] == (key, value));
}

/// A fresh write leaves every other key reading as before.
pub proof fn lemma_set_key_value_preserves_others(
    kvs: Seq<(String, Vec<u8>)>,
    key: String,
    value: Vec<u8>,
    other: Seq<char>,
)
    requires
        key@ != other,
    ensures
        spec_find_key_value(kvs.insert(0, (key, value)), other) == spec_find_key_value(
            kvs,
            other,
        ),
{
    let updated = kvs.insert(0, (key, value));
    assert(updated[0] == (key, value));
    assert(updated.drop_first() =~= kvs);
}

} // verus!
