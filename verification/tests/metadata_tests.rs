use chess_base::identity::{public_user_caller, Caller, CurrentUser, Mode};
use chess_base::json::Json;
use chess_base::oauth::{
    authorization_server_metadata, consent_redirect, park_request, protected_resource_metadata,
    refresh_token_arg, registration_body, AuthorizeRequest, NewClient, OAuthError, TokenRequest,
};
use chess_base::providers::{default_wire, provider_owner};
use chess_base::views::{folder_views, health_body, FolderRow};
use chess_base::generation::danger_generation_ready;
use chess_base::oauth::{authorize_step, AuthorizeStep};

fn s(x: &str) -> String {
    x.to_string()
}

fn text_of(j: &Json) -> String {
    match j {
        Json::Str(t) => t.clone(),
        _ => panic!("expected a string"),
    }
}

fn texts_of(j: &Json) -> Vec<String> {
    match j {
        Json::Array(items) => items.iter().map(text_of).collect(),
        _ => panic!("expected an array"),
    }
}

fn members(j: Json) -> Vec<(String, Json)> {
    match j {
        Json::Object(m) => m,
        _ => panic!("expected an object"),
    }
}

fn members_of(j: &Json) -> &Vec<(String, Json)> {
    match j {
        Json::Object(m) => m,
        _ => panic!("expected an object"),
    }
}

#[test]
fn public_routes_resolve_callers_by_mode() {
    assert!(matches!(public_user_caller(Mode::Local, Some(s("t"))), Caller::LocalAdmin));
    assert!(matches!(public_user_caller(Mode::Server, None), Caller::Anonymous));
    match public_user_caller(Mode::Server, Some(s("tok"))) {
        Caller::Token(t) => assert_eq!(t, "tok"),
        _ => panic!("expected a token caller"),
    }
}

#[test]
fn consent_redirect_encodes_the_csrf_token() {
    assert_eq!(consent_redirect("a b+c"), "/oauth/consent?csrf_token=a%20b%2Bc");
    assert_eq!(consent_redirect("plain"), "/oauth/consent?csrf_token=plain");
}

#[test]
fn parked_request_expires_after_ten_minutes() {
    let req = AuthorizeRequest {
        client_id: s("cid"),
        redirect_uri: s("https://a/cb"),
        code_challenge: s("chal"),
        code_challenge_method: s("S256"),
        scope: s("chess"),
        state: Some(s("xyz")),
    };
    let parked = park_request(&req, "alice", "csrf", 1_000);
    assert_eq!(parked.expires_at, 1_000 + 600 * 1_000_000);
    assert_eq!(parked.csrf_token, "csrf");
    assert_eq!(parked.user_id, "alice");
    assert_eq!(parked.client_id, "cid");
    assert_eq!(parked.redirect_uri, "https://a/cb");
    assert_eq!(parked.state, Some(s("xyz")));
}

#[test]
fn refresh_grant_needs_a_token() {
    let mut req = TokenRequest {
        grant_type: s("refresh_token"),
        code: None,
        redirect_uri: None,
        code_verifier: None,
        client_id: None,
        refresh_token: None,
    };
    match refresh_token_arg(&req) {
        Err(OAuthError::Bad(code, d)) => {
            assert_eq!(code, "invalid_request");
            assert_eq!(d, "refresh_token is required");
        },
        _ => panic!("expected invalid_request"),
    }
    req.refresh_token = Some(s("r1"));
    assert_eq!(refresh_token_arg(&req).ok(), Some(s("r1")));
}

#[test]
fn resource_metadata_points_at_the_server() {
    let m = members(protected_resource_metadata("https://h"));
    assert_eq!(m.len(), 4);
    assert_eq!(m[0].0, "resource");
    assert_eq!(text_of(&m[0].1), "https://h/mcp");
    assert_eq!(texts_of(&m[1].1), vec![s("https://h")]);
    assert_eq!(texts_of(&m[2].1), vec![s("header")]);
    assert_eq!(texts_of(&m[3].1), vec![s("chess")]);
}

#[test]
fn authorization_server_metadata_lists_the_endpoints() {
    let m = members(authorization_server_metadata("https://h"));
    assert_eq!(m.len(), 9);
    assert_eq!(text_of(&m[0].1), "https://h");
    assert_eq!(text_of(&m[1].1), "https://h/oauth/authorize");
    assert_eq!(text_of(&m[2].1), "https://h/oauth/token");
    assert_eq!(text_of(&m[3].1), "https://h/oauth/register");
    assert_eq!(texts_of(&m[5].1), vec![s("authorization_code"), s("refresh_token")]);
    assert_eq!(texts_of(&m[6].1), vec![s("S256")]);
    assert_eq!(m[7].0, "token_endpoint_auth_methods_supported");
}

#[test]
fn registration_body_echoes_the_client() {
    let client = NewClient { client_id: s("id1"), client_name: s("Client"), redirect_uris: s("[]") };
    let uris = vec![s("https://a/cb"), s("https://b/cb")];
    let m = members(registration_body(&client, &uris));
    assert_eq!(m.len(), 6);
    assert_eq!(text_of(&m[0].1), "id1");
    assert_eq!(text_of(&m[1].1), "Client");
    assert_eq!(texts_of(&m[2].1), uris);
    assert_eq!(text_of(&m[3].1), "none");
    assert_eq!(texts_of(&m[5].1), vec![s("code")]);
}

#[test]
fn provider_defaults_and_owners() {
    assert_eq!(default_wire(), "anthropic");
    let u = CurrentUser { id: s("bob"), is_admin: false, public: false, read_only: false, global_only: false };
    assert_eq!(provider_owner(&u, false), Some(s("bob")));
    assert_eq!(provider_owner(&u, true), None);
}

#[test]
fn health_reports_mode_and_capabilities() {
    let m = members(health_body(Mode::Server, "1.2.3", true, false));
    assert_eq!(m.len(), 6);
    assert_eq!(text_of(&m[0].1), "ok");
    assert_eq!(text_of(&m[1].1), "chess-base");
    assert_eq!(text_of(&m[2].1), "1.2.3");
    assert_eq!(text_of(&m[3].1), "server");
    assert!(matches!(m[4].1, Json::Bool(true)));
    assert!(matches!(m[5].1, Json::Bool(false)));
    let local = members(health_body(Mode::Local, "0", false, true));
    assert_eq!(text_of(&local[3].1), "local");
}

#[test]
fn folder_listing_marks_ownerless_folders_global() {
    let rows = vec![
        FolderRow { id: 1, owner_id: None, parent_id: None, name: s("Openings") },
        FolderRow { id: 2, owner_id: Some(s("alice")), parent_id: Some(1), name: s("Mine") },
    ];
    let views = folder_views(&rows);
    assert_eq!(views.len(), 2);
    let first = members_of(&views[0]);
    assert_eq!(first[0].0, "id");
    assert!(matches!(first[0].1, Json::UInt(1)));
    assert!(matches!(first[1].1, Json::Null));
    assert!(matches!(first[2].1, Json::Null));
    assert_eq!(text_of(&first[3].1), "Openings");
    assert!(matches!(first[4].1, Json::Bool(true)));
    let second = members_of(&views[1]);
    assert_eq!(text_of(&second[1].1), "alice");
    assert!(matches!(second[2].1, Json::UInt(1)));
    assert!(matches!(second[4].1, Json::Bool(false)));
}

#[test]
fn a_bad_spine_is_refused_before_the_configuration() {
    match danger_generation_ready(&Some(s("no move e9")), false, false) {
        Err((code, m)) => {
            assert_eq!(code, 400);
            assert_eq!(m, "invalid spine PGN: no move e9");
        },
        Ok(()) => panic!("expected a 400"),
    }
    match danger_generation_ready(&None, false, true) {
        Err((code, m)) => {
            assert_eq!(code, 503);
            assert!(m.starts_with("No engine configured"));
        },
        Ok(()) => panic!("expected a 503"),
    }
    assert!(danger_generation_ready(&None, true, true).is_ok());
}

#[test]
fn authorize_logs_in_then_remembers_or_asks() {
    match authorize_step(None, true, Some("/oauth/authorize?client_id=a b")) {
        AuthorizeStep::Login(t) => assert_eq!(t, "/?next=%2Foauth%2Fauthorize%3Fclient_id%3Da%20b"),
        _ => panic!("expected a login bounce"),
    }
    assert!(matches!(authorize_step(Some("alice"), true, None), AuthorizeStep::IssueCode));
    assert!(matches!(authorize_step(Some("alice"), false, None), AuthorizeStep::AskConsent));
}
