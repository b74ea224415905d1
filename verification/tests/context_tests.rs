use request_auth::api_result_status::{ApiHttpResult, ApiHttpResultWithData, ApiResultStatus};
use request_auth::cookie::GetCookie;
use request_auth::get_language::{
    get_ordered_iso2_languages, GetAcceptLanguage, GetCookieLanguage, GetPreferredLanguage,
};
use request_auth::header::{required_header_is_missing, GetHeader};
use request_auth::http_context::{HttpContext, HttpRequest};
use request_auth::http_fail::{HttpFailResult, WebContentType};
use request_auth::middlewares::GetCookieParameter;

fn context(headers: Vec<(&str, &[u8])>, cookies: Vec<(&str, &str)>) -> HttpContext {
    HttpContext {
        request: HttpRequest {
            headers: headers.into_iter().map(|(n, v)| (n.to_string(), v.to_vec())).collect(),
            cookies: cookies
                .into_iter()
                .map(|(n, v)| (n.to_string(), v.to_string()))
                .collect(),
            key_values: vec![],
        },
        credentials: None,
    }
}

#[test]
fn test_accept_language() {
    let languages = "en-US,en;q=0.9,fr;q=0.8,de;q=0.7";
    let ordered_iso2_languages = get_ordered_iso2_languages(&languages);

    assert_eq!(ordered_iso2_languages, vec!["en", "en", "fr", "de"]);
}

#[test]
fn accept_language_handles_edge_shapes() {
    assert_eq!(get_ordered_iso2_languages("de;q=0.5,fr"), vec!["fr", "de"]);
    assert_eq!(get_ordered_iso2_languages(" pt-BR "), vec!["pt"]);
    assert_eq!(get_ordered_iso2_languages("a;q=bogus,b;q=0.9"), vec!["a", "b"]);
    assert_eq!(get_ordered_iso2_languages("a;q=0.85,b;q=0.9"), vec!["b", "a"]);
}

#[test]
fn accept_language_header_is_parsed_from_request() {
    let ctx = context(vec![("accept-language", b"en-US,en;q=0.9,fr;q=0.8")], vec![]);
    assert_eq!(
        ctx.get_accept_language(),
        Some(vec!["en".to_string(), "en".to_string(), "fr".to_string()])
    );
    let ctx = context(vec![], vec![]);
    assert_eq!(ctx.get_accept_language(), None);
}

#[test]
fn preferred_language_prefers_supported_cookie() {
    let ctx = context(vec![], vec![("lang", "fr")]);
    assert_eq!(ctx.get_preferred_language(vec!["en", "fr"]), "fr");
}

#[test]
fn preferred_language_defaults_on_unsupported_cookie() {
    let ctx = context(vec![("Accept-Language", b"fr")], vec![("lang", "xx")]);
    assert_eq!(ctx.get_preferred_language(vec!["en", "fr"]), "en");
}

#[test]
fn preferred_language_falls_back_to_accept_header() {
    let ctx = context(vec![("Accept-Language", b"de,fr;q=0.9")], vec![]);
    assert_eq!(ctx.get_preferred_language(vec!["en", "fr"]), "fr");
    let ctx = context(vec![], vec![]);
    assert_eq!(ctx.get_preferred_language(vec!["en", "fr"]), "en");
}

#[test]
fn cookies_are_read_by_exact_name() {
    let ctx = context(vec![], vec![("session", "abc"), ("lang", "en")]);
    assert_eq!(GetCookie::get_cookie(&ctx, "session"), Some("abc".to_string()));
    assert_eq!(GetCookieParameter::get_cookie(&ctx, "lang"), Some("en".to_string()));
    assert_eq!(GetCookie::get_cookie(&ctx, "Session"), None);
    assert_eq!(ctx.get_cookie_language(), Some("en".to_string()));
}

#[test]
fn headers_are_read_case_insensitively() {
    let ctx = context(vec![("Sitever", b"2.4.1")], vec![]);
    assert_eq!(ctx.get_header("sitever"), Ok("2.4.1".to_string()));
    assert_eq!(ctx.get_header("SITEVER"), Ok("2.4.1".to_string()));
}

#[test]
fn missing_header_reports_its_name() {
    let ctx = context(vec![], vec![]);
    assert_eq!(
        ctx.get_header("Sitever"),
        Err("Required header [Sitever] is missing".to_string())
    );
    let err = ctx.get_header_as_http_fail("Sitever").unwrap_err();
    assert_eq!(err.status_code, 400);
    assert_eq!(err.content, b"Required header [Sitever] is missing".to_vec());
    assert!(err.write_telemetry);
    assert!(!err.write_to_log);
}

#[test]
fn unreadable_header_reports_a_parse_failure() {
    let ctx = context(vec![("Sitever", b"\xff\xfe")], vec![]);
    assert_eq!(
        ctx.get_header("Sitever"),
        Err("Cannot parse header value in 'Sitever'".to_string())
    );
    let err = ctx.get_header_as_http_fail("Sitever").unwrap_err();
    assert_eq!(err.content, b"Cannot parse header value in 'Sitever'".to_vec());
    assert!(err.write_to_log);
}

#[test]
fn required_header_is_missing_builds_the_payload() {
    let fail = required_header_is_missing("User-Agent".to_string());
    assert_eq!(fail.status_code, 400);
    assert_eq!(fail.content_type, WebContentType::Text);
    assert_eq!(fail.content, b"Required header [User-Agent] is missing".to_vec());
}

#[test]
fn status_codes_follow_the_fixed_table() {
    assert_eq!(ApiResultStatus::Success.get_status_code(), 200);
    assert_eq!(ApiResultStatus::AccessTokenExpired.get_status_code(), 401);
    assert_eq!(ApiResultStatus::AccessTokenInvalid.get_status_code(), 401);
    assert_eq!(ApiResultStatus::AccessClaimRequired.get_status_code(), 403);
    assert_eq!(ApiResultStatus::NotAuthorized.get_status_code(), 401);
    assert_eq!(ApiResultStatus::BrandIsNotSetUp.get_status_code(), 500);
    assert_eq!(ApiResultStatus::RequestIsNoValid.get_status_code(), 400);
    assert_eq!(ApiResultStatus::TraderIsNotVerified.get_status_code(), 403);
    assert_eq!(ApiResultStatus::ForceUpdateIsRequired.get_status_code(), 200);
}

#[test]
fn result_codes_follow_the_fixed_table() {
    assert_eq!(ApiResultStatus::Success.result_code(), 0);
    assert_eq!(ApiResultStatus::AccessTokenExpired.result_code(), -9);
    assert_eq!(ApiResultStatus::AccessTokenInvalid.result_code(), -17);
    assert_eq!(ApiResultStatus::RequestIsNoValid.result_code(), -200);
    assert_eq!(ApiResultStatus::ForceUpdateIsRequired.result_code(), -999);
}

#[test]
fn test_result_deserialization() {
    let test_struct = ApiHttpResult { result: ApiResultStatus::AccessTokenExpired };

    let result = test_struct.to_json_bytes();

    println!("{}", String::from_utf8(result.clone()).unwrap());
    assert_eq!(result, b"{\"result\":-9}".to_vec());
}

#[test]
fn result_payload_with_data_serializes_exactly() {
    let with_data = ApiHttpResultWithData {
        result: ApiResultStatus::RequestIsNoValid,
        data: Some("why".to_string()),
    };
    assert_eq!(with_data.to_json_bytes(), b"{\"result\":-200,\"data\":\"why\"}".to_vec());
    let with_null = ApiHttpResultWithData { result: ApiResultStatus::Success, data: None };
    assert_eq!(with_null.to_json_bytes(), b"{\"result\":0,\"data\":null}".to_vec());

    let fail: HttpFailResult = with_data.to_fail_result();
    assert_eq!(fail.status_code, 400);
    assert_eq!(fail.content_type, WebContentType::Json);
}

#[test]
fn first_header_match_wins() {
    let ctx = context(vec![("Sitever", b"first"), ("SITEVER", b"second")], vec![]);
    assert_eq!(ctx.get_header("sitever"), Ok("first".to_string()));
}

#[test]
fn accept_language_orders_exotic_weights() {
    assert_eq!(get_ordered_iso2_languages("aa,bb;q=1e1"), vec!["bb", "aa"]);
    assert_eq!(get_ordered_iso2_languages("aa;q=9e-1,bb;q=0.8"), vec!["aa", "bb"]);
    assert_eq!(get_ordered_iso2_languages("aa;q=-1,bb;q=0"), vec!["bb", "aa"]);
    assert_eq!(get_ordered_iso2_languages("aa;q=+0.5,bb;q=0.4"), vec!["aa", "bb"]);
    assert_eq!(get_ordered_iso2_languages("aa;q=2,bb;q=inf"), vec!["bb", "aa"]);
    assert_eq!(get_ordered_iso2_languages("aa;q=nan,bb;q=2"), vec!["bb", "aa"]);
    assert_eq!(get_ordered_iso2_languages("aa;q=-InFinity,bb;q=-9999"), vec!["bb", "aa"]);
}
