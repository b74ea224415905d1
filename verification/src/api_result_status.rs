//! The domain result codes an API call can end with, the fixed mapping from
//! each code to an HTTP status, and the byte-exact JSON failure payloads
//! built from them.

use vstd::prelude::*;

use crate::http_fail::{HttpFailResult, WebContentType};
use crate::json::{
    escape_json_bytes, i16_dec_bytes, push_json_data_key, push_json_result_prefix, spec_escape_bytes,
    spec_idec, spec_json_data_key, spec_json_null, spec_json_result_prefix,
};

verus! {

/// A domain result code.  On the wire each variant is its numeric code,
/// as given by [`ApiResultStatus::result_code`].
#[derive(Clone, Copy, Debug, PartialEq, Eq, Structural)]
pub enum ApiResultStatus {
    Success,
    InvalidUserNameOrPassword,
    UserExists,
    UserNotFound,
    OldPasswordIsWrong,
    WrongFileExtension,
    FileNotFound,
    PersonalDataNotValid,
    SystemError,
    AccessTokenExpired,
    TechnicalError,
    CountryIsRestricted,
    AccessTokenInvalid,
    AccessClaimRequired,
    TraderPackageNotFound,
    OrderNotFound,
    OrderNotPaid,
    PasswordWasUsedBefore,
    InvalidCodeEntered,
    NotEnoughBalance,
    NotAuthorized,
    RefreshTokenExpired,
    PayoutIsBlocked,
    TraderIsNotVerified,
    TraderIsAlreadyVerified,
    InvalidCode,
    InvalidDiscountCode,
    DiscountCodeUsageExceeded,
    DiscountCodeExpired,
    InvalidSiteLanguage,
    UserHasOpenPositions,
    RequestIsNoValid,
    AmountExceedsMax,
    AmountLessThanMin,
    BrandIsNotSetUp,
    ForceUpdateIsRequired,
}

/// The numeric code each result carries on the wire.
pub open spec fn spec_result_code(s: ApiResultStatus) -> int {
    match s {
        ApiResultStatus::Success => 0,
        ApiResultStatus::InvalidUserNameOrPassword => -1,
        ApiResultStatus::UserExists => -2,
        ApiResultStatus::UserNotFound => -3,
        ApiResultStatus::OldPasswordIsWrong => -4,
        ApiResultStatus::WrongFileExtension => -5,
        ApiResultStatus::FileNotFound => -6,
        ApiResultStatus::PersonalDataNotValid => -7,
        ApiResultStatus::SystemError => -8,
        ApiResultStatus::AccessTokenExpired => -9,
        ApiResultStatus::TechnicalError => -10,
        ApiResultStatus::CountryIsRestricted => -11,
        ApiResultStatus::AccessTokenInvalid => -17,
        ApiResultStatus::AccessClaimRequired => -18,
        ApiResultStatus::TraderPackageNotFound => -19,
        ApiResultStatus::OrderNotFound => -20,
        ApiResultStatus::OrderNotPaid => -21,
        ApiResultStatus::PasswordWasUsedBefore => -22,
        ApiResultStatus::InvalidCodeEntered => -30,
        ApiResultStatus::NotEnoughBalance => -40,
        ApiResultStatus::NotAuthorized => -50,
        ApiResultStatus::RefreshTokenExpired => -51,
        ApiResultStatus::PayoutIsBlocked => -60,
        ApiResultStatus::TraderIsNotVerified => -70,
        ApiResultStatus::TraderIsAlreadyVerified => -71,
        ApiResultStatus::InvalidCode => -72,
        ApiResultStatus::InvalidDiscountCode => -73,
        ApiResultStatus::DiscountCodeUsageExceeded => -74,
        ApiResultStatus::DiscountCodeExpired => -75,
        ApiResultStatus::InvalidSiteLanguage => -80,
        ApiResultStatus::UserHasOpenPositions => -100,
        ApiResultStatus::RequestIsNoValid => -200,
        ApiResultStatus::AmountExceedsMax => -201,
        ApiResultStatus::AmountLessThanMin => -202,
        ApiResultStatus::BrandIsNotSetUp => -900,
        ApiResultStatus::ForceUpdateIsRequired => -999,
    }
}

/// The HTTP status each result is served under.
pub open spec fn spec_status_code(s: ApiResultStatus) -> int {
    match s {
        ApiResultStatus::Success => 200,
        ApiResultStatus::InvalidUserNameOrPassword => 200,
        ApiResultStatus::UserExists => 200,
        ApiResultStatus::UserNotFound => 200,
        ApiResultStatus::OldPasswordIsWrong => 200,
        ApiResultStatus::WrongFileExtension => 200,
        ApiResultStatus::FileNotFound => 200,
        ApiResultStatus::PersonalDataNotValid => 200,
        ApiResultStatus::SystemError => 200,
        ApiResultStatus::AccessTokenExpired => 401,
        ApiResultStatus::TechnicalError => 200,
        ApiResultStatus::CountryIsRestricted => 200,
        ApiResultStatus::AccessTokenInvalid => 401,
        ApiResultStatus::AccessClaimRequired => 403,
        ApiResultStatus::ForceUpdateIsRequired => 200,
        ApiResultStatus::TraderPackageNotFound => 400,
        ApiResultStatus::OrderNotFound => 400,
        ApiResultStatus::OrderNotPaid => 400,
        ApiResultStatus::InvalidCodeEntered => 400,
        ApiResultStatus::NotEnoughBalance => 400,
        ApiResultStatus::NotAuthorized => 401,
        ApiResultStatus::UserHasOpenPositions => 400,
        ApiResultStatus::BrandIsNotSetUp => 500,
        ApiResultStatus::PasswordWasUsedBefore => 400,
        ApiResultStatus::RefreshTokenExpired => 400,
        ApiResultStatus::PayoutIsBlocked => 400,
        ApiResultStatus::TraderIsNotVerified => 403,
        ApiResultStatus::TraderIsAlreadyVerified => 400,
        ApiResultStatus::InvalidCode => 400,
        ApiResultStatus::RequestIsNoValid => 400,
        ApiResultStatus::AmountExceedsMax => 400,
        ApiResultStatus::AmountLessThanMin => 400,
        ApiResultStatus::InvalidDiscountCode => 200,
        ApiResultStatus::DiscountCodeUsageExceeded => 400,
        ApiResultStatus::DiscountCodeExpired => 400,
        ApiResultStatus::InvalidSiteLanguage => 400,
    }
}

/// The body of the payload `{"result":<code>}`.
pub open spec fn spec_result_json(code: int) -> Seq<u8> {
    spec_json_result_prefix() + spec_idec(code) + seq![125u8]
}

/// The body of the payload `{"result":<code>,"data":<data>}`, where the
/// data is a JSON string or `null`.
pub open spec fn spec_result_data_json(code: int, data: Option<Seq<u8>>) -> Seq<u8> {
    let data_bytes = match data {
        Some(d) => seq![34u8] + spec_escape_bytes(d) + seq![34u8],
        None => spec_json_null(),
    };
    spec_json_result_prefix() + spec_idec(code) + spec_json_data_key() + data_bytes + seq![125u8]
}

impl ApiResultStatus {
    /// The numeric code this result carries on the wire.
    pub fn result_code(&self) -> (r: i16)
        ensures
            r as int == spec_result_code(*self),
    {
        match self {
            ApiResultStatus::Success => 0,
            ApiResultStatus::InvalidUserNameOrPassword => -1,
            ApiResultStatus::UserExists => -2,
            ApiResultStatus::UserNotFound => -3,
            ApiResultStatus::OldPasswordIsWrong => -4,
            ApiResultStatus::WrongFileExtension => -5,
            ApiResultStatus::FileNotFound => -6,
            ApiResultStatus::PersonalDataNotValid => -7,
            ApiResultStatus::SystemError => -8,
            ApiResultStatus::AccessTokenExpired => -9,
            ApiResultStatus::TechnicalError => -10,
            ApiResultStatus::CountryIsRestricted => -11,
            ApiResultStatus::AccessTokenInvalid => -17,
            ApiResultStatus::AccessClaimRequired => -18,
            ApiResultStatus::TraderPackageNotFound => -19,
            ApiResultStatus::OrderNotFound => -20,
            ApiResultStatus::OrderNotPaid => -21,
            ApiResultStatus::PasswordWasUsedBefore => -22,
            ApiResultStatus::InvalidCodeEntered => -30,
            ApiResultStatus::NotEnoughBalance => -40,
            ApiResultStatus::NotAuthorized => -50,
            ApiResultStatus::RefreshTokenExpired => -51,
            ApiResultStatus::PayoutIsBlocked => -60,
            ApiResultStatus::TraderIsNotVerified => -70,
            ApiResultStatus::TraderIsAlreadyVerified => -71,
            ApiResultStatus::InvalidCode => -72,
            ApiResultStatus::InvalidDiscountCode => -73,
            ApiResultStatus::DiscountCodeUsageExceeded => -74,
            ApiResultStatus::DiscountCodeExpired => -75,
            ApiResultStatus::InvalidSiteLanguage => -80,
            ApiResultStatus::UserHasOpenPositions => -100,
            ApiResultStatus::RequestIsNoValid => -200,
            ApiResultStatus::AmountExceedsMax => -201,
            ApiResultStatus::AmountLessThanMin => -202,
            ApiResultStatus::BrandIsNotSetUp => -900,
            ApiResultStatus::ForceUpdateIsRequired => -999,
        }
    }

    /// The HTTP status this result is served under.
    pub fn get_status_code(&self) -> (r: u16)
        ensures
            r as int == spec_status_code(*self),
    {
        match self {
            ApiResultStatus::Success => 200,
            ApiResultStatus::InvalidUserNameOrPassword => 200,
            ApiResultStatus::UserExists => 200,
            ApiResultStatus::UserNotFound => 200,
            ApiResultStatus::OldPasswordIsWrong => 200,
            ApiResultStatus::WrongFileExtension => 200,
            ApiResultStatus::FileNotFound => 200,
            ApiResultStatus::PersonalDataNotValid => 200,
            ApiResultStatus::SystemError => 200,
            ApiResultStatus::AccessTokenExpired => 401,
            ApiResultStatus::TechnicalError => 200,
            ApiResultStatus::CountryIsRestricted => 200,
            ApiResultStatus::AccessTokenInvalid => 401,
            ApiResultStatus::AccessClaimRequired => 403,
            ApiResultStatus::ForceUpdateIsRequired => 200,
            ApiResultStatus::TraderPackageNotFound => 400,
            ApiResultStatus::OrderNotFound => 400,
            ApiResultStatus::OrderNotPaid => 400,
            ApiResultStatus::InvalidCodeEntered => 400,
            ApiResultStatus::NotEnoughBalance => 400,
            ApiResultStatus::NotAuthorized => 401,
            ApiResultStatus::UserHasOpenPositions => 400,
            ApiResultStatus::BrandIsNotSetUp => 500,
            ApiResultStatus::PasswordWasUsedBefore => 400,
            ApiResultStatus::RefreshTokenExpired => 400,
            ApiResultStatus::PayoutIsBlocked => 400,
            ApiResultStatus::TraderIsNotVerified => 403,
            ApiResultStatus::TraderIsAlreadyVerified => 400,
            ApiResultStatus::InvalidCode => 400,
            ApiResultStatus::RequestIsNoValid => 400,
            ApiResultStatus::AmountExceedsMax => 400,
            ApiResultStatus::AmountLessThanMin => 400,
            ApiResultStatus::InvalidDiscountCode => 200,
            ApiResultStatus::DiscountCodeUsageExceeded => 400,
            ApiResultStatus::DiscountCodeExpired => 400,
            ApiResultStatus::InvalidSiteLanguage => 400,
        }
    }

    /// Turns this result into its JSON failure payload, served under the
    /// status of [`ApiResultStatus::get_status_code`].
    pub fn to_fail_result(self) -> (r: HttpFailResult)
        ensures
            r.content_type == WebContentType::Json,
            r.status_code as int == spec_status_code(self),
            r.content@ == spec_result_json(spec_result_code(self)),
            !r.write_telemetry,
            !r.write_to_log,
    {
        let status_code = self.get_status_code();
        let result = ApiHttpResult { result: self };
        HttpFailResult::new(WebContentType::Json, status_code, result.to_json_bytes(), false, false)
    }
}

/// The payload shape `{"result": <code>}`.
pub struct ApiHttpResult {
    pub result: ApiResultStatus,
}

impl ApiHttpResult {
    /// Serializes the payload as JSON bytes.
    pub fn to_json_bytes(&self) -> (r: Vec<u8>)
        ensures
            r@ == spec_result_json(spec_result_code(self.result)),
    {
        let mut out: Vec<u8> = Vec::new();
        push_json_result_prefix(&mut out);
        let mut code = i16_dec_bytes(self.result.result_code());
        out.append(&mut code);
        out.push(125);
        proof {
            assert(out@ =~= spec_result_json(spec_result_code(self.result)));
        }
        out
    }

    /// Turns the payload into a failure result under its mapped status.
    pub fn to_fail_result(self) -> (r: HttpFailResult)
        ensures
            r.content_type == WebContentType::Json,
            r.status_code as int == spec_status_code(self.result),
            r.content@ == spec_result_json(spec_result_code(self.result)),
            !r.write_telemetry,
            !r.write_to_log,
    {
        self.result.to_fail_result()
    }
}

/// The payload shape `{"result": <code>, "data": <text or null>}`.
pub struct ApiHttpResultWithData {
    pub result: ApiResultStatus,
    pub data: Option<String>,
}

impl ApiHttpResultWithData {
    /// Serializes the payload as JSON bytes; absent data is `null`.
    pub fn to_json_bytes(&self) -> (r: Vec<u8>)
        ensures
            r@ == spec_result_data_json(
                spec_result_code(self.result),
                match self.data {
                    Some(d) => Some(vstd::utf8::encode_utf8(d@)),
                    None => None,
                },
            ),
    {
        let mut out: Vec<u8> = Vec::new();
        push_json_result_prefix(&mut out);
        let mut code = i16_dec_bytes(self.result.result_code());
        out.append(&mut code);
        push_json_data_key(&mut out);
        match &self.data {
            Some(d) => {
                out.push(34);
                let mut body = escape_json_bytes(d.as_str().as_bytes());
                out.append(&mut body);
                out.push(34);
            },
            None => {
                out.push(110);
                out.push(117);
                out.push(108);
                out.push(108);
            },
        }
        out.push(125);
        proof {
            assert(out@ =~= spec_result_data_json(
                spec_result_code(self.result),
                match self.data {
                    Some(d) => Some(vstd::utf8::encode_utf8(d@)),
                    None => None,
                },
            ));
        }
        out
    }

    /// Turns the payload into a failure result under its mapped status.
    pub fn to_fail_result(self) -> (r: HttpFailResult)
        ensures
            r.content_type == WebContentType::Json,
            r.status_code as int == spec_status_code(self.result),
            r.content@ == spec_result_data_json(
                spec_result_code(self.result),
                match self.data {
                    Some(d) => Some(vstd::utf8::encode_utf8(d@)),
                    None => None,
                },
            ),
            !r.write_telemetry,
            !r.write_to_log,
    {
        let status_code = self.result.get_status_code();
        let content = self.to_json_bytes();
        HttpFailResult::new(WebContentType::Json, status_code, content, false, false)
    }
}

} // verus!
