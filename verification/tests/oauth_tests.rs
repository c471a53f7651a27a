use std::collections::HashMap;

use base64::engine::general_purpose::URL_SAFE_NO_PAD;
use base64::Engine;

use maky::auth::oauth_chatgpt::{
    authorization_code_form, build_authorize_url, callback_port_from, callback_redirect_uri,
    device_poll_action, device_polling_bootstrap, extract_account_id, generate_pkce_pair,
    handle_callback_request, http_failure, interval_secs, jwt_payload, jwt_payload_segment,
    pkce_challenge, refresh_token_form, session_from_login_tokens, apply_refreshed_tokens,
    ChatGptOAuthProvider, DevicePollAction, HttpResponse, JwtClaims, JwtOrganization,
    OpenAiAuthClaims, TokenResponse, DEFAULT_CLIENT_ID, DEFAULT_ISSUER,
};
use maky::auth::provider::AuthSession;

fn jwt_from_payload(payload: &str) -> String {
    let header = URL_SAFE_NO_PAD.encode(br#"{"alg":"none"}"#);
    let body = URL_SAFE_NO_PAD.encode(payload.as_bytes());
    format!("{header}.{body}.signature")
}

fn claims_from_json(bytes: &[u8]) -> JwtClaims {
    let value: serde_json::Value = serde_json::from_slice(bytes).expect("claims should parse");
    let string_at = |v: &serde_json::Value, key: &str| {
        v.get(key).and_then(serde_json::Value::as_str).map(str::to_string)
    };
    JwtClaims {
        chatgpt_account_id: string_at(&value, "chatgpt_account_id"),
        organizations: value.get("organizations").and_then(|o| o.as_array()).map(|orgs| {
            orgs.iter()
                .map(|o| JwtOrganization { id: string_at(o, "id").unwrap_or_default() })
                .collect()
        }),
        openai_auth: value.get("https://api.openai.com/auth").map(|a| OpenAiAuthClaims {
            chatgpt_account_id: string_at(a, "chatgpt_account_id"),
        }),
    }
}

fn session(refresh_token: Option<&str>, expires_at: u64) -> AuthSession {
    AuthSession {
        provider_id: "chatgpt-oauth".to_string(),
        access_token: "old-access".to_string(),
        refresh_token: refresh_token.map(str::to_string),
        expires_at_unix_secs: Some(expires_at),
        id_token: None,
        account_id: None,
    }
}

#[test]
fn parse_jwt_claims_extracts_root_account_id() {
    let token = jwt_from_payload(r#"{"chatgpt_account_id":"acc-123"}"#);
    let payload = jwt_payload(&token).expect("claims should parse");
    let claims = claims_from_json(&payload);
    assert_eq!(claims.chatgpt_account_id.as_deref(), Some("acc-123"));
}

#[test]
fn extract_account_id_reads_nested_openai_claim() {
    let token = jwt_from_payload(
        r#"{"https://api.openai.com/auth":{"chatgpt_account_id":"acc-nested"}}"#,
    );
    let claims = claims_from_json(&jwt_payload(&token).expect("payload"));
    assert_eq!(extract_account_id(None, Some(claims)).as_deref(), Some("acc-nested"));
}

#[test]
fn account_id_prefers_id_token_then_root_claim_then_organizations() {
    let orgs = JwtClaims {
        chatgpt_account_id: None,
        organizations: Some(vec![JwtOrganization { id: "org-1".to_string() }]),
        openai_auth: None,
    };
    let root = JwtClaims {
        chatgpt_account_id: Some("root".to_string()),
        organizations: Some(vec![JwtOrganization { id: "org-2".to_string() }]),
        openai_auth: Some(OpenAiAuthClaims { chatgpt_account_id: Some("nested".to_string()) }),
    };
    let empty = JwtClaims { chatgpt_account_id: None, organizations: Some(vec![]), openai_auth: None };
    assert_eq!(extract_account_id(Some(orgs.clone()), Some(root.clone())).as_deref(), Some("org-1"));
    assert_eq!(extract_account_id(Some(root), None).as_deref(), Some("root"));
    assert_eq!(extract_account_id(Some(empty), Some(orgs)).as_deref(), Some("org-1"));
    assert_eq!(extract_account_id(None, None), None);
}

#[test]
fn jwt_payload_needs_a_second_segment() {
    assert_eq!(jwt_payload_segment("a.b.c").as_deref(), Some("b"));
    assert_eq!(jwt_payload_segment("a.b").as_deref(), Some("b"));
    assert_eq!(jwt_payload_segment("a.").as_deref(), Some(""));
    assert_eq!(jwt_payload_segment("abc"), None);
    assert_eq!(jwt_payload("abc"), None);
    assert_eq!(jwt_payload("a.!!!.c"), None);
}

#[test]
fn authorize_url_contains_expected_parameters() {
    let url = build_authorize_url(
        DEFAULT_ISSUER,
        DEFAULT_CLIENT_ID,
        "http://localhost:1455/auth/callback",
        "challenge",
        "state123",
    );
    let parsed = url::Url::parse(&url).expect("url should parse");
    let query: HashMap<String, String> = parsed.query_pairs().into_owned().collect();

    assert_eq!(parsed.path(), "/oauth/authorize");
    assert_eq!(
        query.get("scope").map(String::as_str),
        Some("openid profile email offline_access")
    );
    assert_eq!(query.get("code_challenge").map(String::as_str), Some("challenge"));
    assert_eq!(query.get("state").map(String::as_str), Some("state123"));
    assert_eq!(query.get("client_id").map(String::as_str), Some(DEFAULT_CLIENT_ID));
    assert!(url.starts_with("https://auth.openai.com/oauth/authorize?response_type=code&"));
}

#[test]
fn redirect_uri_and_port_follow_the_configuration() {
    assert_eq!(callback_redirect_uri(1455), "http://localhost:1455/auth/callback");
    assert_eq!(callback_port_from(None), 1455);
    assert_eq!(callback_port_from(Some("8080")), 8080);
    assert_eq!(callback_port_from(Some("+9000")), 9000);
    assert_eq!(callback_port_from(Some("0")), 1455);
    assert_eq!(callback_port_from(Some("70000")), 1455);
    assert_eq!(callback_port_from(Some("port")), 1455);
}

#[test]
fn pkce_challenge_is_the_s256_of_the_verifier() {
    assert_eq!(
        pkce_challenge("dBjftJeZ4CVP-mB92K27uhbUJU1p1r_wW1gFWFOEjXk"),
        "E9Melhoa2OwvFrEMTJguCHaoeK1t8URWbuGJSstw-cM"
    );
    let (verifier, challenge) = generate_pkce_pair().expect("random source");
    assert_eq!(verifier.len(), 43);
    assert_eq!(challenge, pkce_challenge(&verifier));
}

#[test]
fn callback_with_matching_state_returns_the_code() {
    let reply = handle_callback_request(
        "GET /auth/callback?code=abc&state=s1 HTTP/1.1\r\nHost: localhost\r\n\r\n",
        "s1",
    );
    assert_eq!(reply.outcome, Ok(Some("abc".to_string())));
    let response = reply.response.expect("response");
    assert_eq!(response.status_code, 200);
    assert_eq!(response.title, "Authorization Successful");
}

#[test]
fn callback_failures_answer_and_explain() {
    let mismatch = handle_callback_request("GET /auth/callback?code=abc&state=other HTTP/1.1", "s1");
    assert_eq!(mismatch.outcome.unwrap_err().message, "oauth callback state mismatch");
    assert_eq!(mismatch.response.expect("response").status_code, 400);

    let missing_state = handle_callback_request("GET /auth/callback?code=abc HTTP/1.1", "s1");
    assert_eq!(
        missing_state.outcome.unwrap_err().message,
        "oauth callback missing state parameter"
    );

    let missing_code = handle_callback_request("GET /auth/callback?state=s1 HTTP/1.1", "s1");
    assert_eq!(
        missing_code.outcome.unwrap_err().message,
        "oauth callback missing authorization code"
    );

    let denied = handle_callback_request(
        "GET /auth/callback?error=access_denied&error_description=User%20said%20no HTTP/1.1",
        "s1",
    );
    assert_eq!(
        denied.outcome.unwrap_err().message,
        "oauth callback returned error: User said no"
    );
    assert_eq!(denied.response.expect("response").body, "OAuth failed: User said no");
}

#[test]
fn callback_ignores_other_requests() {
    let post = handle_callback_request("POST /auth/callback HTTP/1.1", "s1");
    assert_eq!(post.outcome, Ok(None));
    assert_eq!(post.response.expect("response").status_code, 405);

    let favicon = handle_callback_request("GET /favicon.ico HTTP/1.1", "s1");
    assert_eq!(favicon.outcome, Ok(None));
    assert_eq!(favicon.response.expect("response").status_code, 404);

    let empty = handle_callback_request("", "s1");
    assert_eq!(empty.outcome, Ok(None));
    assert!(empty.response.is_none());
}

#[test]
fn http_response_counts_utf8_bytes() {
    let response = HttpResponse { status_code: 200, title: "Ok".to_string(), body: "é".to_string() };
    let text = response.to_http_text();
    let html = "<!doctype html><html><head><title>Ok</title></head><body><h1>Ok</h1><p>é</p></body></html>";
    assert_eq!(
        text,
        format!(
            "HTTP/1.1 200\r\nContent-Type: text/html; charset=utf-8\r\nContent-Length: {}\r\nConnection: close\r\n\r\n{html}",
            html.len()
        )
    );
}

#[test]
fn refresh_fails_when_refresh_token_missing() {
    let provider = ChatGptOAuthProvider;
    let error = provider
        .refresh_plan(&session(None, 0), 10)
        .expect_err("missing refresh token should fail");
    assert!(error.message.contains("has no refresh token"));
}

#[test]
fn refresh_noops_when_session_is_not_expired() {
    let provider = ChatGptOAuthProvider;
    let valid = session(Some("refresh"), u64::MAX);
    assert_eq!(provider.refresh_plan(&valid, 10).expect("refresh should noop"), None);
}

#[test]
fn refresh_plan_checks_provider_and_blank_tokens() {
    let provider = ChatGptOAuthProvider;
    let mut other = session(Some("refresh"), 0);
    other.provider_id = "someone-else".to_string();
    assert_eq!(
        provider.refresh_plan(&other, 10).unwrap_err().message,
        "provider mismatch during refresh: session belongs to `someone-else`, refresher is `chatgpt-oauth`"
    );
    assert_eq!(
        provider.refresh_plan(&session(Some("  "), 0), 10).unwrap_err().message,
        "refresh token cannot be empty"
    );
    assert_eq!(
        provider.refresh_plan(&session(Some("r1"), 0), 10).expect("plan"),
        Some("r1".to_string())
    );
}

#[test]
fn refreshed_tokens_keep_what_the_endpoint_left_out() {
    let mut s = session(Some("keep-me"), 0);
    s.id_token = Some("old-id".to_string());
    s.account_id = Some("acc".to_string());
    let tokens = TokenResponse {
        access_token: "new-access".to_string(),
        refresh_token: Some(" ".to_string()),
        id_token: None,
        expires_in: None,
    };
    apply_refreshed_tokens(&mut s, tokens, None, 100);
    assert_eq!(s.access_token, "new-access");
    assert_eq!(s.refresh_token.as_deref(), Some("keep-me"));
    assert_eq!(s.id_token.as_deref(), Some("old-id"));
    assert_eq!(s.account_id.as_deref(), Some("acc"));
    assert_eq!(s.expires_at_unix_secs, Some(3_700));
}

#[test]
fn login_tokens_need_a_refresh_token() {
    let tokens = TokenResponse {
        access_token: "a".to_string(),
        refresh_token: None,
        id_token: None,
        expires_in: Some(60),
    };
    assert_eq!(
        session_from_login_tokens("chatgpt-oauth", tokens.clone(), None, 5).unwrap_err().message,
        "oauth login did not return a refresh token"
    );
    let tokens = TokenResponse { refresh_token: Some("r".to_string()), ..tokens };
    let s = session_from_login_tokens("chatgpt-oauth", tokens, Some("acc".to_string()), 5)
        .expect("session");
    assert_eq!(s.expires_at_unix_secs, Some(65));
    assert_eq!(s.account_id.as_deref(), Some("acc"));
}

#[test]
fn device_polling_decisions() {
    assert_eq!(interval_secs("7"), 7);
    assert_eq!(interval_secs("0"), 1);
    assert_eq!(interval_secs("soon"), 5);
    assert_eq!(device_polling_bootstrap("id".to_string(), "CODE".to_string(), 5).interval, 5_000);
    assert_eq!(device_poll_action(200, "", 5_000), DevicePollAction::Exchange);
    assert_eq!(device_poll_action(403, "", 5_000), DevicePollAction::Wait(8_000));
    assert_eq!(device_poll_action(404, "", 1_000), DevicePollAction::Wait(4_000));
    match device_poll_action(500, "boom", 5_000) {
        DevicePollAction::Fail(e) => {
            assert_eq!(e.message, "device authorization failed with status 500: boom")
        }
        other => panic!("unexpected {other:?}"),
    }
    assert_eq!(
        http_failure("token refresh", 401, "no").message,
        "token refresh failed with status 401: no"
    );
}

#[test]
fn token_forms_carry_the_grant() {
    let form = authorization_code_form("c", "http://r", "client", "v");
    assert_eq!(form[0], ("grant_type".to_string(), "authorization_code".to_string()));
    assert_eq!(form.len(), 5);
    let refresh = refresh_token_form("rt", "client");
    assert_eq!(
        refresh,
        vec![
            ("grant_type".to_string(), "refresh_token".to_string()),
            ("refresh_token".to_string(), "rt".to_string()),
            ("client_id".to_string(), "client".to_string()),
        ]
    );
}
