//! Reading the results of authentication back off the request context: the
//! client identity from the credentials slot and the brand tag from the
//! key-value side channel.

use vstd::prelude::*;
use vstd::string::StrSliceExecFns;
use vstd::utf8::{decode_utf8, valid_utf8};

use crate::http_context::{spec_find_key_value, HttpContext};
use crate::middlewares::SessionEntityTrait;
use crate::http_fail::{HttpFailResult, WebContentType};
use crate::text::string_from_utf8;

verus! {

/// The side-channel key the brand tag is written under.
pub const KV_BRAND_ID: &'static str = "BRAND_ID";

/// Access to the brand tag the authentication layer wrote.
pub trait GetBrandId {
    /// The raw brand bytes in the side channel, if any.
    spec fn spec_brand_value(&self) -> Option<Seq<u8>>;

    fn get_brand_id(&self) -> (r: Result<String, HttpFailResult>)
        requires
            self.spec_brand_value() matches Some(v) ==> valid_utf8(v),
        ensures
            r matches Ok(b) ==> (self.spec_brand_value() matches Some(v) && b@ == decode_utf8(v)),
            r is Err <==> self.spec_brand_value() is None,
            r matches Err(e) ==> {
                &&& e.content_type == WebContentType::Text
                &&& e.status_code == 401
                &&& e.content@ == vstd::utf8::encode_utf8(
                    "Can not get brand id Looks like request is unauthorized"@,
                )
                &&& !e.write_telemetry
                &&& !e.write_to_log
            },
    ;
}

/// Access to the identity of the authenticated caller.
pub trait GetClientId {
    fn get_client_id(&self) -> Result<&str, HttpFailResult>;
}

impl GetBrandId for HttpContext {
    open spec fn spec_brand_value(&self) -> Option<Seq<u8>> {
        spec_find_key_value(self.request.key_values@, KV_BRAND_ID@)
    }

    fn get_brand_id(&self) -> (r: Result<String, HttpFailResult>) {
        if let Some(value) = self.request.get_key_value(KV_BRAND_ID) {
            let brand_id = string_from_utf8(value.as_slice());
            match brand_id {
                Some(b) => Ok(b),
                None => {
                    // Unreachable under this trait's contract: the slot, when
                    // present, holds well-formed UTF-8.
                    proof {
                        assert(false);
                    }
                    Err(HttpFailResult::as_unauthorized(None))
                },
            }
        } else {
            Err(
                HttpFailResult::as_unauthorized(
                    Some("Can not get brand id Looks like request is unauthorized".to_owned()),
                ),
            )
        }
    }
}

impl GetClientId for HttpContext {
    /// The identity carried by the attached credentials; a request without
    /// credentials is unauthenticated.
    fn get_client_id(&self) -> (r: Result<&str, HttpFailResult>)
        ensures
            self.credentials matches Some(c) ==> (r matches Ok(id) && id@
                == c.session_entity.spec_id()),
            r is Err <==> self.credentials is None,
            r matches Err(e) ==> {
                &&& e.content_type == WebContentType::Text
                &&& e.status_code == 401
                &&& e.content@ == vstd::utf8::encode_utf8("Unauthenticated"@)
                &&& !e.write_telemetry
                &&& !e.write_to_log
            },
    {
        if let Some(credentials) = self.credentials.as_ref() {
            Ok(credentials.get_id())
        } else {
            let content = ("Unauthenticated").as_bytes_vec();
            Err(
                HttpFailResult {
                    content_type: WebContentType::Text,
                    status_code: 401,
                    content,
                    write_telemetry: false,
                    write_to_log: false,
                },
            )
        }
    }
}

} // verus!
