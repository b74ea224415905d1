//! Required-header access: reading a header as text, with a message or a
//! failure payload when it is missing or not well-formed.

use vstd::prelude::*;
use vstd::string::StringExecFns;
use vstd::utf8::{decode_utf8, encode_utf8, valid_utf8};

use crate::http_context::{spec_find_header, HttpContext};
use crate::http_fail::{HttpFailResult, WebContentType};
use crate::text::string_from_utf8;

verus! {

/// Name of the header that carries the caller's country, as set by the
/// edge proxy.
pub const HEADER_CF_IP_COUNTRY: &'static str = "CF-IPCountry";

/// Name of the header that carries the site version.
pub const HEADER_SITE_VER: &'static str = "Sitever";

/// Name of the header that carries the user agent.
pub const HEADER_USER_AGENT: &'static str = "User-Agent";

/// The message reported for a missing required header.
pub open spec fn spec_missing_header_message(name: Seq<char>) -> Seq<char> {
    "Required header ["@ + name + "] is missing"@
}

/// The message reported for a header whose bytes are not well-formed text.
pub open spec fn spec_unparsable_header_message(name: Seq<char>) -> Seq<char> {
    "Cannot parse header value in '"@ + name + "'"@
}

/// Access to required headers of the request.
pub trait GetHeader {
    fn get_header(&self, header_name: &'static str) -> Result<String, String>;

    fn get_header_as_http_fail(&self, header_name: &'static str) -> Result<String, HttpFailResult>;
}

fn missing_header_message(header_name: &str) -> (r: String)
    ensures
        r@ == spec_missing_header_message(header_name@),
{
    let mut message = String::from_str("Required header [");
    message.append(header_name);
    message.append("] is missing");
    message
}

fn unparsable_header_message(header_name: &str) -> (r: String)
    ensures
        r@ == spec_unparsable_header_message(header_name@),
{
    let mut message = String::from_str("Cannot parse header value in '");
    message.append(header_name);
    message.append("'");
    message
}

/// The failure payload for a missing required header: plain text, status
/// 400, telemetry written, nothing logged.
pub fn required_header_is_missing(param_name: String) -> (r: HttpFailResult)
    ensures
        r.content_type == WebContentType::Text,
        r.status_code == 400,
        r.content@ == encode_utf8(spec_missing_header_message(param_name@)),
        r.write_telemetry,
        !r.write_to_log,
{
    let content = missing_header_message(param_name.as_str());
    HttpFailResult {
        content_type: WebContentType::Text,
        status_code: 400,
        content: content.as_str().as_bytes_vec(),
        write_telemetry: true,
        write_to_log: false,
    }
}

impl GetHeader for HttpContext {
    /// The named header as text, or a message saying that it is missing
    /// or not readable.
    fn get_header(&self, header_name: &'static str) -> (r: Result<String, String>)
        ensures
            match spec_find_header(self.request.headers@, header_name@) {
                None => r matches Err(m) && m@ == spec_missing_header_message(header_name@),
                Some(value) => if valid_utf8(value) {
                    r matches Ok(s) && s@ == decode_utf8(value)
                } else {
                    r matches Err(m) && m@ == spec_unparsable_header_message(header_name@)
                },
            },
    {
        let header = self.request.try_get_header_case_insensitive(header_name);
        match header {
            None => Err(missing_header_message(header_name)),
            Some(value) => match string_from_utf8(value.as_slice()) {
                Some(s) => Ok(s),
                None => Err(unparsable_header_message(header_name)),
            },
        }
    }

    /// The named header as text, or the matching failure payload.
    fn get_header_as_http_fail(&self, header_name: &'static str) -> (r: Result<
        String,
        HttpFailResult,
    >)
        ensures
            match spec_find_header(self.request.headers@, header_name@) {
                None => r matches Err(e) && e.content_type == WebContentType::Text
                    && e.status_code == 400 && e.content@ == encode_utf8(
                    spec_missing_header_message(header_name@),
                ) && e.write_telemetry && !e.write_to_log,
                Some(value) => if valid_utf8(value) {
                    r matches Ok(s) && s@ == decode_utf8(value)
                } else {
                    r matches Err(e) && e.content_type == WebContentType::Text && e.status_code
                        == 400 && e.content@ == encode_utf8(
                        spec_unparsable_header_message(header_name@),
                    ) && e.write_telemetry && e.write_to_log
                },
            },
    {
        let header = self.request.try_get_header_case_insensitive(header_name);
        match header {
            None => Err(required_header_is_missing(header_name.to_owned())),
            Some(value) => match string_from_utf8(value.as_slice()) {
                Some(s) => Ok(s),
                None => Err(HttpFailResult::invalid_value_to_parse(unparsable_header_message(
                    header_name,
                ))),
            },
        }
    }
}

} // verus!
