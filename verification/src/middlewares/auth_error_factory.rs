//! The failure payloads handed out when the authorization layer rejects a
//! request: not authenticated (no usable identity, status 401) and not
//! authorized (an identity that lacks the required claim, status 403 with
//! the claim-required payload naming the claim).

use vstd::prelude::*;
use vstd::utf8::encode_utf8;

use crate::api_result_status::{
    spec_result_code, spec_result_data_json, spec_result_json, ApiHttpResultWithData,
    ApiResultStatus,
};
use crate::http_fail::{HttpFailResult, WebContentType};

verus! {

/// Builds the failure payloads of the authorization gate.
pub struct AuthErrorFactoryWl;

/// The payload shape reported when a required access claim is missing:
/// the claim-required code with the claim's name as its data.
pub struct AccessClaimRequired {
    pub result: ApiResultStatus,
    pub data: String,
}

impl AccessClaimRequired {
    /// Serializes the payload as JSON bytes.
    pub fn to_json_bytes(&self) -> (r: Vec<u8>)
        ensures
            r@ == spec_result_data_json(
                spec_result_code(self.result),
                Some(encode_utf8(self.data@)),
            ),
    {
        let payload = ApiHttpResultWithData { result: self.result, data: Some(self.data.clone()) };
        payload.to_json_bytes()
    }
}

impl AuthErrorFactoryWl {
    /// The payload for a request without a usable identity: the
    /// invalid-access-token code as JSON under status 401.
    pub fn get_not_authenticated(&self) -> (r: HttpFailResult)
        ensures
            r.content_type == WebContentType::Json,
            r.status_code == 401,
            r.content@ == spec_result_json(spec_result_code(ApiResultStatus::AccessTokenInvalid)),
            !r.write_telemetry,
            !r.write_to_log,
    {
        ApiResultStatus::AccessTokenInvalid.to_fail_result()
    }

    /// The payload for an identity that lacks the named claim: the
    /// claim-required code as JSON, naming the missing claim, under the
    /// status 403 that code maps to.
    pub fn get_not_authorized(&self, claim_name: String) -> (r: HttpFailResult)
        ensures
            r.content_type == WebContentType::Json,
            r.status_code == 403,
            r.content@ == spec_result_data_json(
                spec_result_code(ApiResultStatus::AccessClaimRequired),
                Some(encode_utf8(claim_name@)),
            ),
            !r.write_telemetry,
            !r.write_to_log,
    {
        let content = AccessClaimRequired {
            result: ApiResultStatus::AccessClaimRequired,
            data: claim_name,
        };
        let status_code = content.result.get_status_code();
        HttpFailResult::new(WebContentType::Json, status_code, content.to_json_bytes(), false, false)
    }
}

} // verus!
