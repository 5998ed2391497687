use chess_base::identity::CurrentUser;
use chess_base::oauth::{
    check_client, check_code, code_exchange_inputs, code_redirect, decide_consent, denied_redirect,
    error_body, grant_type, issue_code, live_request, login_redirect, refresh_decision,
    register_client, registered_redirect, render_consent_page, token_response, validate_authorize,
    AuthorizeQuery, CodeRow, ConsentError, ConsentOutcome, ConsentRequest, GrantType, OAuthClient,
    OAuthError, RefreshOutcome, RegisterRequest, TokenRequest, TokenRow,
};
use chess_base::json::Json;
use chess_base::text::{encode, html_escape};

fn s(x: &str) -> String {
    x.to_string()
}

fn user(id: &str) -> CurrentUser {
    CurrentUser { id: s(id), is_admin: false, public: false, read_only: false, global_only: false }
}

fn bad_of(e: OAuthError) -> (String, String) {
    match e {
        OAuthError::Bad(code, description) => (code, description),
        OAuthError::Server => panic!("expected a 400"),
    }
}

#[test]
fn html_escape_escapes_all_five_special_chars() {
    assert_eq!(html_escape(r#"<a href="x">&'"#), "&lt;a href=&quot;x&quot;&gt;&amp;&#39;");
}

#[test]
fn html_escape_passes_plain_text_through() {
    assert_eq!(html_escape("Desktop Client 2"), "Desktop Client 2");
}

#[test]
fn encode_passes_unreserved_and_escapes_the_rest() {
    assert_eq!(encode("aZ09-_.~"), "aZ09-_.~");
    assert_eq!(encode("a b/c?"), "a%20b%2Fc%3F");
}

#[test]
fn registered_redirect_matches_only_listed_uris() {
    let client = OAuthClient {
        client_id: s("c"),
        client_name: s("n"),
        redirect_uris: s(r#"["https://a/cb","https://b/cb"]"#),
    };
    assert!(registered_redirect(&client, "https://a/cb"));
    assert!(!registered_redirect(&client, "https://evil/cb"));
}

#[test]
fn unreadable_redirect_list_registers_nothing() {
    let client = OAuthClient { client_id: s("c"), client_name: s("n"), redirect_uris: s("not json") };
    assert!(!registered_redirect(&client, "https://a/cb"));
    assert!(matches!(check_client(Some(&client), "https://a/cb"), Err(OAuthError::Bad(..))));
}

#[test]
fn encode_escapes_multibyte_characters_per_byte() {
    assert_eq!(encode("é"), "%C3%A9");
    assert_eq!(encode(""), "");
}

fn query() -> AuthorizeQuery {
    AuthorizeQuery {
        response_type: Some(s("code")),
        client_id: Some(s("cid")),
        redirect_uri: Some(s("https://a/cb")),
        code_challenge: Some(s("chal")),
        code_challenge_method: None,
        scope: None,
        state: Some(s("xyz")),
    }
}

#[test]
fn authorize_query_validates_in_order() {
    let ok = validate_authorize(&query()).ok().expect("valid");
    assert_eq!(ok.client_id, "cid");
    assert_eq!(ok.code_challenge_method, "S256");
    assert_eq!(ok.scope, "chess");
    assert_eq!(ok.state.as_deref(), Some("xyz"));

    let mut q = query();
    q.response_type = Some(s("token"));
    let (code, d) = bad_of(validate_authorize(&q).err().unwrap());
    assert_eq!((code.as_str(), d.as_str()), ("unsupported_response_type", "only response_type=code is supported"));

    let mut q = query();
    q.code_challenge_method = Some(s("plain"));
    let (_, d) = bad_of(validate_authorize(&q).err().unwrap());
    assert_eq!(d, "only code_challenge_method=S256 is supported");

    let mut q = query();
    q.code_challenge = Some(s(""));
    let (_, d) = bad_of(validate_authorize(&q).err().unwrap());
    assert_eq!(d, "code_challenge is required (PKCE)");

    let mut q = query();
    q.client_id = None;
    let (_, d) = bad_of(validate_authorize(&q).err().unwrap());
    assert_eq!(d, "client_id is required");

    let mut q = query();
    q.redirect_uri = None;
    let (_, d) = bad_of(validate_authorize(&q).err().unwrap());
    assert_eq!(d, "redirect_uri is required");
}

#[test]
fn unknown_client_fails_without_redirecting() {
    let (code, d) = bad_of(check_client(None, "https://a/cb").err().unwrap());
    assert_eq!((code.as_str(), d.as_str()), ("invalid_client", "unknown client_id"));
    let client = OAuthClient { client_id: s("c"), client_name: s("n"), redirect_uris: s(r#"["https://a/cb"]"#) };
    let (_, d) = bad_of(check_client(Some(&client), "https://evil/cb").err().unwrap());
    assert_eq!(d, "redirect_uri is not registered for this client");
    assert!(check_client(Some(&client), "https://a/cb").is_ok());
}

#[test]
fn redirects_pick_the_separator_and_encode() {
    assert_eq!(code_redirect("https://a/cb", "c d", Some("s/1")), "https://a/cb?code=c%20d&state=s%2F1");
    assert_eq!(code_redirect("https://a/cb?x=1", "c", Some("")), "https://a/cb?x=1&code=c");
    assert_eq!(denied_redirect("https://a/cb", None), "https://a/cb?error=access_denied");
    assert_eq!(login_redirect(Some("/oauth/authorize?a=b")), "/?next=%2Foauth%2Fauthorize%3Fa%3Db");
    assert_eq!(login_redirect(None), "/?next=%2F");
}

#[test]
fn issued_code_expires_after_ten_minutes() {
    let (row, target) = issue_code("cid", "alice", "https://a/cb", "chal", "S256", "chess", None, "k", 1_000);
    assert_eq!(row.expires_at, 1_000 + 600_000_000);
    assert!(!row.used);
    assert_eq!(row.user_id, "alice");
    assert_eq!(target, "https://a/cb?code=k");
}

#[test]
fn consent_page_escapes_the_client_name() {
    let page = render_consent_page("<b>Evil</b>", "tok");
    assert!(page.contains("<strong>&lt;b&gt;Evil&lt;/b&gt;</strong>"));
    assert!(page.contains("name=\"csrf_token\" value=\"tok\""));
    assert!(page.starts_with("<!doctype html>\n"));
    assert!(page.ends_with("</html>\n"));
}

fn parked(user_id: &str, expires_at: i64) -> ConsentRequest {
    ConsentRequest {
        csrf_token: s("t"),
        user_id: s(user_id),
        client_id: s("cid"),
        redirect_uri: s("https://a/cb"),
        code_challenge: s("chal"),
        code_challenge_method: s("S256"),
        scope: s("chess"),
        state: Some(s("st")),
        expires_at,
    }
}

#[test]
fn consent_decisions() {
    let alice = user("alice");
    assert!(matches!(decide_consent(None, 10, Some(&alice), "approve"), Err(ConsentError::NotFound)));
    assert!(matches!(
        decide_consent(Some(parked("alice", 10)), 10, Some(&alice), "approve"),
        Err(ConsentError::NotFound)
    ));
    assert!(matches!(decide_consent(Some(parked("alice", 99)), 10, None, "approve"), Err(ConsentError::Forbidden)));
    assert!(matches!(
        decide_consent(Some(parked("bob", 99)), 10, Some(&alice), "approve"),
        Err(ConsentError::Forbidden)
    ));
    match decide_consent(Some(parked("alice", 99)), 10, Some(&alice), "Approve") {
        Ok(ConsentOutcome::Deny(t)) => assert_eq!(t, "https://a/cb?error=access_denied&state=st"),
        _ => panic!("anything but `approve` denies"),
    }
    match decide_consent(Some(parked("alice", 99)), 10, Some(&alice), "approve") {
        Ok(ConsentOutcome::Approve(r)) => assert_eq!(r.client_id, "cid"),
        _ => panic!("expected an approval"),
    }
    assert_eq!(ConsentError::NotFound.status(), 400);
    assert_eq!(ConsentError::Forbidden.message(), "forbidden");
    assert!(live_request(Some(parked("a", 5)), 4).is_ok());
}

fn token_request() -> TokenRequest {
    TokenRequest {
        grant_type: s("authorization_code"),
        code: Some(s("k")),
        redirect_uri: Some(s("https://a/cb")),
        code_verifier: Some(s("v")),
        client_id: Some(s("cid")),
        refresh_token: None,
    }
}

fn code_row(used: bool, expires_at: i64) -> CodeRow {
    CodeRow {
        code: s("k"),
        client_id: s("cid"),
        user_id: s("alice"),
        redirect_uri: s("https://a/cb"),
        code_challenge: s("chal"),
        code_challenge_method: s("S256"),
        scope: s("chess"),
        expires_at,
        used,
    }
}

#[test]
fn code_exchange_checks_in_order() {
    let req = token_request();
    let (_, d) = bad_of(check_code(&req, None, 5, true).err().unwrap());
    assert_eq!(d, "unknown authorization code");
    let (_, d) = bad_of(check_code(&req, Some(&code_row(true, 99)), 5, true).err().unwrap());
    assert_eq!(d, "authorization code expired or used");
    let (_, d) = bad_of(check_code(&req, Some(&code_row(false, 5)), 5, true).err().unwrap());
    assert_eq!(d, "authorization code expired or used");
    let mut other = token_request();
    other.redirect_uri = Some(s("https://b/cb"));
    let (_, d) = bad_of(check_code(&other, Some(&code_row(false, 99)), 5, true).err().unwrap());
    assert_eq!(d, "redirect_uri mismatch");
    let mut other = token_request();
    other.client_id = Some(s("x"));
    let (_, d) = bad_of(check_code(&other, Some(&code_row(false, 99)), 5, true).err().unwrap());
    assert_eq!(d, "client_id mismatch");
    let (_, d) = bad_of(check_code(&req, Some(&code_row(false, 99)), 5, false).err().unwrap());
    assert_eq!(d, "PKCE verification failed");
    assert!(check_code(&req, Some(&code_row(false, 99)), 5, true).is_ok());

    let mut row = code_row(false, 99);
    row.burn();
    assert!(check_code(&req, Some(&row), 5, true).is_err());

    let mut no_code = token_request();
    no_code.code = None;
    let (_, d) = bad_of(code_exchange_inputs(&no_code).err().unwrap());
    assert_eq!(d, "code is required");
    let mut no_verifier = token_request();
    no_verifier.code_verifier = None;
    let (_, d) = bad_of(code_exchange_inputs(&no_verifier).err().unwrap());
    assert_eq!(d, "code_verifier is required (PKCE)");
}

#[test]
fn grant_types() {
    assert_eq!(grant_type("authorization_code").ok(), Some(GrantType::AuthorizationCode));
    assert_eq!(grant_type("refresh_token").ok(), Some(GrantType::RefreshToken));
    let (code, d) = bad_of(grant_type("password").err().unwrap());
    assert_eq!(code, "unsupported_grant_type");
    assert_eq!(d, "unsupported grant_type: password");
}

#[test]
fn refresh_reuse_and_age_revoke_the_family() {
    let live = TokenRow { family_id: s("f"), revoked: false, created_at: 0, scope: s("chess") };
    let revoked = TokenRow { family_id: s("f"), revoked: true, created_at: 0, scope: s("chess") };
    match refresh_decision(None, None, 0, 30) {
        RefreshOutcome::Reject(e) => assert_eq!(bad_of(e).1, "unknown refresh token"),
        _ => panic!("unknown token"),
    }
    match refresh_decision(Some(&revoked), Some(0), 0, 30) {
        RefreshOutcome::RevokeFamily(e) => {
            assert_eq!(bad_of(e).1, "refresh token reuse detected; the authorization has been revoked")
        },
        _ => panic!("reuse"),
    }
    let day: i64 = 86_400_000_000;
    assert!(matches!(refresh_decision(Some(&live), Some(0), 30 * day, 30), RefreshOutcome::Rotate));
    match refresh_decision(Some(&live), Some(0), 30 * day + 1, 30) {
        RefreshOutcome::RevokeFamily(e) => assert_eq!(bad_of(e).1, "refresh token expired"),
        _ => panic!("expired family"),
    }
}

#[test]
fn token_documents() {
    match token_response("a", "r", 3600, "chess") {
        Json::Object(m) => {
            assert_eq!(m.len(), 5);
            assert_eq!(m[1].0, "token_type");
            assert!(matches!(&m[1].1, Json::Str(t) if t == "Bearer"));
            assert!(matches!(&m[2].1, Json::UInt(3600)));
        },
        _ => panic!("object"),
    }
    match error_body(&OAuthError::Server) {
        (500, Json::Object(m)) => assert!(matches!(&m[0].1, Json::Str(t) if t == "server_error")),
        _ => panic!("server error body"),
    }
}

#[test]
fn registration_requires_redirect_uris() {
    let empty = RegisterRequest { redirect_uris: vec![], client_name: None };
    let (code, d) = bad_of(register_client(&empty, "id").err().unwrap());
    assert_eq!((code.as_str(), d.as_str()), ("invalid_redirect_uri", "redirect_uris is required"));
    let req = RegisterRequest { redirect_uris: vec![s("https://a/cb")], client_name: None };
    let c = register_client(&req, "id").ok().unwrap();
    assert_eq!(c.client_name, "mcp-client");
    assert_eq!(c.redirect_uris, r#"["https://a/cb"]"#);
    let client = OAuthClient { client_id: c.client_id, client_name: c.client_name, redirect_uris: c.redirect_uris };
    assert!(registered_redirect(&client, "https://a/cb"));
}
