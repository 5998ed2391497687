use chess_base::generation::{
    danger_start_fen, danger_walk_settings, generate_depth, generate_start_fen, generation_ready,
};
use chess_base::identity::CurrentUser;
use chess_base::service_tokens::{mint_token, revoke_decision, ServiceTokenError};
use chess_base::settings::{key_for, prepare_settings, validate, SettingsError, UserSettings};

fn user(id: &str) -> CurrentUser {
    CurrentUser { id: id.to_string(), is_admin: false, public: false, read_only: false, global_only: false }
}

fn admin() -> CurrentUser {
    CurrentUser { is_admin: true, ..user("root") }
}

#[test]
fn defaults_are_all_unset() {
    let d = UserSettings::default();
    assert!(d.theme.is_none() && d.board_theme.is_none() && d.piece_set.is_none());
    assert!(d.default_database_id.is_none() && d.show_plans.is_none());
}

#[test]
fn saving_returns_the_canonical_trimmed_settings() {
    let saved = prepare_settings(
        UserSettings {
            theme: Some("dark".to_string()),
            board_theme: Some("  blue  ".to_string()),
            piece_set: Some("cburnett".to_string()),
            ..Default::default()
        },
        true,
    )
    .ok()
    .unwrap();
    assert_eq!(saved.board_theme.as_deref(), Some("blue"));
    assert_eq!(saved.theme.as_deref(), Some("dark"));
    assert_eq!(saved.piece_set.as_deref(), Some("cburnett"));
}

#[test]
fn blank_strings_normalize_to_none() {
    let saved = prepare_settings(
        UserSettings { board_theme: Some("   ".to_string()), piece_set: Some(String::new()), ..Default::default() },
        true,
    )
    .ok()
    .unwrap();
    assert!(saved.board_theme.is_none());
    assert!(saved.piece_set.is_none());
}

#[test]
fn overlay_flags_pass_through() {
    let saved = prepare_settings(
        UserSettings { show_plans: Some(false), show_threats: Some(true), show_master_moves: Some(true), ..Default::default() },
        true,
    )
    .ok()
    .unwrap();
    assert_eq!(saved.show_plans, Some(false));
    assert_eq!(saved.show_threats, Some(true));
    assert_eq!(saved.show_master_moves, Some(true));
}

#[test]
fn rejects_unknown_theme() {
    let err = prepare_settings(UserSettings { theme: Some("neon".to_string()), ..Default::default() }, true).err().unwrap();
    assert!(matches!(err, SettingsError::InvalidInput(ref m) if m == "invalid theme 'neon' (expected one of light, dark, system)"));
    assert_eq!(err.response().0, 400);
}

#[test]
fn default_database_must_be_visible() {
    let s = UserSettings { default_database_id: Some(-3), ..Default::default() };
    assert!(validate(&s, true).is_ok());
    let err = validate(&s, false).err().unwrap();
    assert!(matches!(err, SettingsError::InvalidInput(ref m) if m == "database -3 is not available"));
}

#[test]
fn settings_keys_are_scoped_per_user() {
    assert_eq!(key_for(&user("alice")), "user_settings:alice");
    assert_ne!(key_for(&user("alice")), key_for(&user("bob")));
}

#[test]
fn internal_failures_are_not_shown() {
    let e = SettingsError::Db("disk on fire".to_string());
    assert_eq!(e.response().0, 500);
    assert_eq!(SettingsError::Serde("eof".to_string()).to_text(), "corrupt settings: eof");
}

#[test]
fn minting_is_admin_only_and_validated() {
    let r = mint_token(&user("bob"), "alice", "ci", "full", false, None, "sec".to_string(), "id".to_string(), 0);
    assert!(matches!(r, Err(ServiceTokenError::Forbidden)));
    let r = mint_token(&admin(), "alice", "ci", "root", false, None, "sec".to_string(), "id".to_string(), 0);
    assert!(matches!(r, Err(ServiceTokenError::InvalidInput(ref m)) if m == "scope must be one of full, read_only, global_read"));
    let r = mint_token(&admin(), "alice", " ", "full", false, None, "sec".to_string(), "id".to_string(), 0);
    assert!(matches!(r, Err(ServiceTokenError::InvalidInput(ref m)) if m == "label must not be empty"));
    let r = mint_token(&admin(), "", "ci", "full", false, None, "sec".to_string(), "id".to_string(), 0);
    assert!(matches!(r, Err(ServiceTokenError::InvalidInput(ref m)) if m == "owner_id must not be empty"));
    let t = mint_token(&admin(), "alice", "ci", "read_only", false, Some(2), "sec".to_string(), "id".to_string(), 5)
        .ok()
        .unwrap();
    assert_eq!(t.view.owner_id, "alice");
    assert_eq!(t.view.scope, "read_only");
    assert_ne!(t.token, t.view.id);
    assert_eq!(t.view.expires_at, Some(5 + 2 * 86_400_000_000));
    assert!(t.view.expires_at.unwrap() > t.view.created_at);
}

#[test]
fn revoking_needs_an_admin_and_a_known_token() {
    assert!(matches!(revoke_decision(&user("bob"), true), Err(ServiceTokenError::Forbidden)));
    assert!(matches!(revoke_decision(&admin(), false), Err(ServiceTokenError::NotFound)));
    assert!(revoke_decision(&admin(), true).is_ok());
    assert_eq!(ServiceTokenError::NotFound.answer().1, "service token not found");
}

#[test]
fn normalizing_twice_changes_nothing() {
    let mut s = UserSettings { theme: Some(" light\t".to_string()), piece_set: Some("\u{a0}alpha ".to_string()), ..Default::default() };
    s.normalize();
    assert_eq!(s.theme.as_deref(), Some("light"));
    assert_eq!(s.piece_set.as_deref(), Some("alpha"));
    let once = (s.theme.clone(), s.board_theme.clone(), s.piece_set.clone());
    s.normalize();
    assert_eq!((s.theme.clone(), s.board_theme.clone(), s.piece_set.clone()), once);
}

#[test]
fn generation_needs_an_engine_then_a_model() {
    let (code, m) = generation_ready(false, true).err().unwrap();
    assert_eq!(code, 503);
    assert!(m.starts_with("No engine configured"));
    let (_, m) = generation_ready(true, false).err().unwrap();
    assert!(m.starts_with("No language model configured"));
    assert!(generation_ready(true, true).is_ok());
    assert_eq!(danger_start_fen(Some("  ")), "rnbqkbnr/pppppppp/8/8/8/8/PPPPPPPP/RNBQKBNR w KQkq - 0 1");
    assert_eq!(danger_start_fen(Some("8/8/8/8/8/8/8/K6k w - - 0 1")), "8/8/8/8/8/8/8/K6k w - - 0 1");
    assert_eq!(generate_start_fen(Some("  ".to_string())), "  ");
    assert_eq!(danger_walk_settings(None, Some(5)), (500, 5));
    assert_eq!(generate_depth(None), 18);
}
