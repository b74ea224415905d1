//! The failure payload this crate hands back to the HTTP layer: a content
//! type, a status code, the response body bytes, and two logging flags.
//! The surrounding server turns values of this type into wire responses.

use vstd::prelude::*;
use vstd::string::StrSliceExecFns;
use vstd::string::StringSliceAdditionalSpecFns;

verus! {

/// The content type a failure payload is served under.
#[derive(Clone, Copy, Debug, PartialEq, Eq, Structural)]
pub enum WebContentType {
    Json,
    Text,
}

/// A failed HTTP outcome: what is sent back and how it is logged.
#[derive(Clone, Debug)]
pub struct HttpFailResult {
    pub content_type: WebContentType,
    pub status_code: u16,
    pub content: Vec<u8>,
    pub write_telemetry: bool,
    pub write_to_log: bool,
}

impl HttpFailResult {
    /// Assembles a failure payload from its parts.
    pub fn new(
        content_type: WebContentType,
        status_code: u16,
        content: Vec<u8>,
        write_telemetry: bool,
        write_to_log: bool,
    ) -> (r: Self)
        ensures
            r.content_type == content_type,
            r.status_code == status_code,
            r.content@ == content@,
            r.write_telemetry == write_telemetry,
            r.write_to_log == write_to_log,
    {
        HttpFailResult { content_type, status_code, content, write_telemetry, write_to_log }
    }

    /// A plain-text validation failure: status 400, the message as the body.
    pub fn as_validation_error(message: String) -> (r: Self)
        ensures
            r.content_type == WebContentType::Text,
            r.status_code == 400,
            r.content@ == vstd::utf8::encode_utf8(message@),
            r.write_telemetry,
            r.write_to_log,
    {
        let content = message.as_str().as_bytes_vec();
        HttpFailResult {
            content_type: WebContentType::Text,
            status_code: 400,
            content,
            write_telemetry: true,
            write_to_log: true,
        }
    }

    /// A plain-text unauthorized failure: status 401, with the given reason
    /// or a fixed fallback as the body.
    pub fn as_unauthorized(message: Option<String>) -> (r: Self)
        ensures
            r.content_type == WebContentType::Text,
            r.status_code == 401,
            (match message {
                Some(m) => r.content@ == vstd::utf8::encode_utf8(m@),
                None => r.content@ == vstd::utf8::encode_utf8("Unauthorized"@),
            }),
            !r.write_telemetry,
            !r.write_to_log,
    {
        let content = match message {
            Some(m) => m.as_str().as_bytes_vec(),
            None => ("Unauthorized").as_bytes_vec(),
        };
        HttpFailResult {
            content_type: WebContentType::Text,
            status_code: 401,
            content,
            write_telemetry: false,
            write_to_log: false,
        }
    }

    /// A plain-text parse failure: status 400, the message as the body.
    pub fn invalid_value_to_parse(message: String) -> (r: Self)
        ensures
            r.content_type == WebContentType::Text,
            r.status_code == 400,
            r.content@ == vstd::utf8::encode_utf8(message@),
            r.write_telemetry,
            r.write_to_log,
    {
        let content = message.as_str().as_bytes_vec();
        HttpFailResult {
            content_type: WebContentType::Text,
            status_code: 400,
            content,
            write_telemetry: true,
            write_to_log: true,
        }
    }
}

} // verus!
