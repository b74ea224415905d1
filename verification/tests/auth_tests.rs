use request_auth::get_client_id::{GetBrandId, GetClientId};
use request_auth::http_fail::WebContentType;
use request_auth::http_context::{HttpContext, HttpRequest};
use request_auth::middlewares::{
    extract_token, extract_token_scheme, handle_lookup_result, plan_auth, plan_lookup, AccessClaim,
    AuthEntity, AuthErrorFactoryWl, AuthScheme, GetSessionApiKey, GetSessionToken,
    OpenApiKeyEntity, SessionEntity, SessionEntityTrait, TokenDecision,
    TradingPlatformRequestCredentials, SESSION_PARTITION_KEY_VALUE,
};

fn context_with_headers(headers: Vec<(&str, &[u8])>) -> HttpContext {
    HttpContext {
        request: HttpRequest {
            headers: headers.into_iter().map(|(n, v)| (n.to_string(), v.to_vec())).collect(),
            cookies: vec![],
            key_values: vec![],
        },
        credentials: None,
    }
}

fn session_entity(token: &str, trader: &str, brand: &str, claims: Vec<AccessClaim>) -> SessionEntity {
    SessionEntity {
        row_key: token.to_string(),
        trader_id: trader.to_string(),
        expires: 1_700_000_000_000,
        brand_id: brand.to_string(),
        ip: "10.0.0.1".to_string(),
        claims,
    }
}

#[test]
fn short_header_values_extract_nothing() {
    for len in 0..7 {
        let value = vec![b'x'; len];
        assert!(extract_token(&value).is_none());
        assert!(extract_token_scheme(&value).is_none());
    }
}

#[test]
fn bearer_header_extracts_token_and_scheme() {
    let (token, scheme) = extract_token_scheme(b"Bearer 1234567890").unwrap();
    assert_eq!(token, b"1234567890");
    assert_eq!(scheme, AuthScheme::Bearer);
    assert_eq!(extract_token(b"Bearer 1234567890").unwrap(), b"1234567890");
}

#[test]
fn bare_token_defaults_to_bearer() {
    let (token, scheme) = extract_token_scheme(b"1234567890").unwrap();
    assert_eq!(token, b"1234567890");
    assert_eq!(scheme, AuthScheme::Bearer);
}

#[test]
fn api_key_keyword_is_matched_case_insensitively() {
    let (token, scheme) = extract_token_scheme(b"ApiKey secret").unwrap();
    assert_eq!(token, b"secret");
    assert_eq!(scheme, AuthScheme::ApiKey);
    let (_, scheme) = extract_token_scheme(b"APIKEY secret").unwrap();
    assert_eq!(scheme, AuthScheme::ApiKey);
    let (_, scheme) = extract_token_scheme(b"Basics secret").unwrap();
    assert_eq!(scheme, AuthScheme::Bearer);
}

#[test]
fn session_token_comes_from_authorization_header() {
    let ctx = context_with_headers(vec![("Authorization", b"Bearer 1234567890")]);
    assert_eq!(ctx.get_session_token(), Some("1234567890".to_string()));
    assert_eq!(ctx.get_session_api_key(), None);
}

#[test]
fn api_key_comes_from_dedicated_header() {
    let ctx = context_with_headers(vec![("X-Api-Key", b"raw-key-0001")]);
    assert_eq!(ctx.get_session_api_key(), Some("raw-key-0001".to_string()));
    assert_eq!(ctx.get_session_token(), None);
}

#[test]
fn malformed_token_bytes_count_as_absent() {
    let ctx = context_with_headers(vec![("authorization", b"Bearer \xff\xfe")]);
    assert_eq!(ctx.get_session_token(), None);
    match plan_auth(&ctx, AuthScheme::Bearer) {
        TokenDecision::NoToken => {},
        other => panic!("expected NoToken, got {:?}", other),
    }
}

#[test]
fn matching_scheme_plans_a_lookup() {
    let ctx = context_with_headers(vec![("authorization", b"Bearer 1234567890")]);
    match plan_auth(&ctx, AuthScheme::Bearer) {
        TokenDecision::UseToken(token) => assert_eq!(token, "1234567890"),
        other => panic!("expected UseToken, got {:?}", other),
    }
}

#[test]
fn scheme_mismatch_never_plans_a_lookup() {
    let decision = plan_lookup(
        Some(("1234567890".to_string(), AuthScheme::Bearer)),
        AuthScheme::ApiKey,
    );
    match decision {
        TokenDecision::WrongScheme => {},
        other => panic!("expected WrongScheme, got {:?}", other),
    }

    let ctx = context_with_headers(vec![("authorization", b"ApiKey secret")]);
    match plan_auth(&ctx, AuthScheme::Bearer) {
        TokenDecision::WrongScheme => {},
        other => panic!("expected WrongScheme, got {:?}", other),
    }

    let bearer_only = context_with_headers(vec![("authorization", b"Bearer 1234567890")]);
    match plan_auth(&bearer_only, AuthScheme::ApiKey) {
        TokenDecision::NoToken => {},
        other => panic!("expected NoToken, got {:?}", other),
    }
    assert!(bearer_only.credentials.is_none());
    assert!(bearer_only.request.key_values.is_empty());
}

#[test]
fn store_miss_passes_the_request_through() {
    let mut ctx = context_with_headers(vec![("authorization", b"Bearer unknown")]);
    handle_lookup_result(&mut ctx, None);
    assert!(ctx.credentials.is_none());
    assert!(ctx.request.key_values.is_empty());
}

#[test]
fn store_hit_attaches_credentials_and_brand_tag() {
    let mut ctx = context_with_headers(vec![("authorization", b"Bearer 1234567890")]);
    let entity = session_entity("1234567890", "trader-7", "brand-a", vec![]);
    handle_lookup_result(&mut ctx, Some(AuthEntity::Session(entity)));

    let creds = ctx.credentials.as_ref().expect("credentials attached");
    assert_eq!(creds.get_id(), "trader-7");

    let brand_writes: Vec<_> =
        ctx.request.key_values.iter().filter(|(k, _)| k == "BRAND_ID").collect();
    assert_eq!(brand_writes.len(), 1);
    assert_eq!(brand_writes[0].1, b"brand-a".to_vec());

    assert_eq!(ctx.get_brand_id().unwrap(), "brand-a");
    assert_eq!(ctx.get_client_id().unwrap(), "trader-7");
}

#[test]
fn empty_claim_list_normalizes_to_none() {
    let entity = session_entity("t", "trader-7", "brand-a", vec![]);
    let creds = TradingPlatformRequestCredentials::new(entity);
    assert!(creds.get_claims().is_none());
}

#[test]
fn claim_expiry_widens_from_millis_to_micros() {
    let claim = AccessClaim { id: "c1".to_string(), expires: 1_700_000_000_000 };
    let entity = session_entity("t", "trader-7", "brand-a", vec![claim]);
    let creds = TradingPlatformRequestCredentials::new(entity);
    let claims = creds.get_claims().expect("one claim");
    assert_eq!(claims.len(), 1);
    assert_eq!(claims[0].id, "c1");
    assert_eq!(claims[0].expires.unix_microseconds, 1_700_000_000_000_000);
    assert!(claims[0].allowed_ips.is_none());
}

#[test]
fn same_entity_yields_value_equal_credentials() {
    let entity = session_entity(
        "tok",
        "trader-9",
        "brand-b",
        vec![AccessClaim { id: "c1".to_string(), expires: 1_000 }],
    );
    let mut ctx1 = context_with_headers(vec![("authorization", b"Bearer tok")]);
    let mut ctx2 = context_with_headers(vec![
        ("authorization", b"Bearer tok"),
        ("x-extra", b"other request"),
    ]);
    handle_lookup_result(&mut ctx1, Some(AuthEntity::Session(entity.clone())));
    handle_lookup_result(&mut ctx2, Some(AuthEntity::Session(entity)));

    let c1 = ctx1.credentials.as_ref().unwrap();
    let c2 = ctx2.credentials.as_ref().unwrap();
    assert_eq!(c1.get_id(), c2.get_id());
    let cl1 = c1.get_claims().unwrap();
    let cl2 = c2.get_claims().unwrap();
    assert_eq!(cl1.len(), cl2.len());
    assert_eq!(cl1[0].id, cl2[0].id);
    assert_eq!(cl1[0].expires.unix_microseconds, cl2[0].expires.unix_microseconds);
}

#[test]
fn api_key_entities_resolve_like_sessions() {
    let mut ctx = context_with_headers(vec![("x-api-key", b"raw-key")]);
    match plan_auth(&ctx, AuthScheme::ApiKey) {
        TokenDecision::UseToken(token) => assert_eq!(token, "raw-key"),
        other => panic!("expected UseToken, got {:?}", other),
    }
    let entity = OpenApiKeyEntity {
        row_key: "raw-key".to_string(),
        api_key_id: "key-17".to_string(),
        expires: 1_700_000_000_000,
        brand_id: "brand-k".to_string(),
        ip: "10.0.0.2".to_string(),
        claims: vec![],
    };
    handle_lookup_result(&mut ctx, Some(AuthEntity::ApiKey(entity)));
    assert_eq!(ctx.credentials.as_ref().unwrap().get_id(), "key-17");
    assert_eq!(ctx.get_brand_id().unwrap(), "brand-k");
}

#[test]
fn entity_accessors_expose_their_fields() {
    let entity = session_entity("tok-1", "trader-1", "brand-1", vec![]);
    assert_eq!(entity.get_session_token(), "tok-1");
    assert_eq!(entity.get_id(), "trader-1");
    assert_eq!(entity.get_brand_id(), "brand-1");
    assert!(entity.get_claims().is_empty());
    assert_eq!(SessionEntity::get_pk(), SESSION_PARTITION_KEY_VALUE);
    assert_eq!(OpenApiKeyEntity::get_pk(), "t");
}

#[test]
fn unauthenticated_requests_have_no_client_or_brand() {
    let ctx = context_with_headers(vec![]);
    let err = ctx.get_client_id().unwrap_err();
    assert_eq!(err.status_code, 401);
    assert_eq!(err.content, b"Unauthenticated".to_vec());
    let err = ctx.get_brand_id().unwrap_err();
    assert_eq!(err.status_code, 401);
    assert_eq!(
        err.content,
        b"Can not get brand id Looks like request is unauthorized".to_vec()
    );
}

#[test]
fn auth_error_factory_payloads() {
    let factory = AuthErrorFactoryWl;
    let not_authenticated = factory.get_not_authenticated();
    assert_eq!(not_authenticated.status_code, 401);
    assert_eq!(not_authenticated.content, b"{\"result\":-17}".to_vec());

    let not_authorized = factory.get_not_authorized("trades".to_string());
    assert_eq!(not_authorized.status_code, 403);
    assert_eq!(not_authorized.content_type, WebContentType::Json);
    assert_eq!(not_authorized.content, b"{\"result\":-18,\"data\":\"trades\"}".to_vec());
}

#[test]
fn re_resolution_shadows_the_earlier_brand_tag() {
    let mut ctx = context_with_headers(vec![("authorization", b"Bearer tok")]);
    let first = session_entity("tok", "trader-1", "brand-old", vec![]);
    let second = session_entity("tok", "trader-1", "brand-new", vec![]);
    handle_lookup_result(&mut ctx, Some(AuthEntity::Session(first)));
    handle_lookup_result(&mut ctx, Some(AuthEntity::Session(second)));
    assert_eq!(ctx.get_brand_id().unwrap(), "brand-new");
    assert_eq!(ctx.request.key_values.len(), 2);
}
