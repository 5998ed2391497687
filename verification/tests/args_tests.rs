use chess_base::json::{is_absent_or_null, read_json, Json};
use chess_base::tool_args::{
    add_move_args, analyse_game_args, danger_map_options, export_format, mainline_check, export_game_ids, exported_pgns, fen_arg,
    folder_update_args, int_arg, limits_arg, merge_game_ids, opening_tree_args, opt_bounded_u64,
    pgn_arg, reference_limit, save_as_study_args, start_fen_arg, str_arg, Color, EngineCaps,
    ExportFormat, MoveInput, MAX_REFERENCE_LIMIT,
};
use chess_base::tool_errors::{
    database_error, folder_error, game_error, header_error, import_error, report_error, review_error,
    spine_error, tree_error, GameError, HeaderSearchError, ReviewError, SearchError, ServiceFailure,
    WalkError,
};

fn json(text: &str) -> Json {
    read_json(text.as_bytes()).expect("valid JSON")
}

fn caps() -> EngineCaps {
    EngineCaps { max_depth: 60, max_movetime_ms: 300_000, max_plan_lines: 3 }
}

fn fen_checks() {
    assert!(fen_arg(&json("{}")).is_none(), "empty arguments must yield no FEN");
    assert!(fen_arg(&json(r#"{"fen":"  "}"#)).is_none());
    assert_eq!(fen_arg(&json(r#"{"fen":"x"}"#)).as_deref(), Some("x"));
}

#[test]
fn db_tools_missing_fen_is_rejected_before_any_query() {
    fen_checks();
}

#[test]
fn mcp_db_tools_missing_fen_is_rejected_before_any_query() {
    fen_checks();
}

#[test]
fn limits_are_clamped_and_never_wrap() {
    let c = caps();
    let limits = limits_arg(&json(r#"{"depth":100000,"movetime_ms":600000}"#), &c).ok().unwrap();
    assert_eq!(limits.depth, Some(c.max_depth));
    assert_eq!(limits.movetime_ms, Some(c.max_movetime_ms));

    let limits = limits_arg(&json(r#"{"depth":18,"movetime_ms":5000}"#), &c).ok().unwrap();
    assert_eq!(limits.depth, Some(18));
    assert_eq!(limits.movetime_ms, Some(5_000));

    let limits = limits_arg(&json("{}"), &c).ok().unwrap();
    assert_eq!(limits.depth, None);
    assert_eq!(limits.movetime_ms, None);
}

#[test]
fn limits_below_one_are_rejected() {
    let c = caps();
    assert!(limits_arg(&json(r#"{"depth":0}"#), &c).is_err());
    assert!(limits_arg(&json(r#"{"movetime_ms":0}"#), &c).is_err());
    assert!(limits_arg(&json(r#"{"depth":-5}"#), &c).is_err());
}

#[test]
fn reference_limit_is_clamped_and_validated() {
    assert_eq!(opt_bounded_u64(&json(r#"{"limit":10000}"#), "limit", MAX_REFERENCE_LIMIT), Ok(Some(MAX_REFERENCE_LIMIT)));
    assert_eq!(opt_bounded_u64(&json("{}"), "limit", MAX_REFERENCE_LIMIT), Ok(None));
    assert!(opt_bounded_u64(&json(r#"{"limit":0}"#), "limit", MAX_REFERENCE_LIMIT).is_err());
}

fn report_checks() {
    let outcome = report_error(&SearchError::InvalidFen("bad".to_string()));
    assert!(outcome.is_error);
    assert!(outcome.text.contains("invalid FEN"));
    let outcome = report_error(&SearchError::Db);
    assert_eq!(outcome.text, "database query failed");
}

#[test]
fn db_tools_db_errors_are_not_leaked() {
    report_checks();
}

#[test]
fn mcp_db_tools_db_errors_are_not_leaked() {
    report_checks();
}

#[test]
fn add_move_takes_san_or_uci() {
    let a = add_move_args(&json(r#"{"study_id":1,"from_node_id":0,"san":"e4","uci":"e2e4"}"#)).ok().unwrap();
    assert!(matches!(a.mv, MoveInput::San(ref s) if s == "e4"));
    let a = add_move_args(&json(r#"{"study_id":1,"from_node_id":0,"uci":"g1f3","nag":3}"#)).ok().unwrap();
    assert!(matches!(a.mv, MoveInput::Uci(ref s) if s == "g1f3"));
    assert_eq!(a.nag, Some(3));
    let e = add_move_args(&json(r#"{"study_id":1,"from_node_id":0}"#)).err().unwrap();
    assert_eq!(e, "Invalid arguments: provide a move as `san` or `uci`.");
}

#[test]
fn exports_join_the_stored_games() {
    let pgns = vec![Some("  1. e4 *  ".to_string()), None, Some("   ".to_string()), Some("1. d4 *".to_string())];
    assert_eq!(exported_pgns(&pgns), Ok("1. e4 *\n\n1. d4 *".to_string()));
    assert_eq!(exported_pgns(&vec![None]), Err("none of the selected games have a stored PGN".to_string()));
    assert_eq!(export_game_ids(&json(r#"{"game_ids":[]}"#)), Err("Invalid arguments: `game_ids` must not be empty.".to_string()));
    assert_eq!(export_game_ids(&json(r#"{"game_ids":[1,"x"]}"#)), Err("Invalid arguments: `game_ids` must be integers.".to_string()));
    assert_eq!(export_game_ids(&json(r#"{"game_ids":[3,-4]}"#)), Ok(vec![3, -4]));
}

#[test]
fn a_game_to_analyse_needs_a_pgn() {
    assert_eq!(pgn_arg(&json(r#"{"pgn":"  "}"#)), Err("Invalid arguments: missing string field `pgn`.".to_string()));
    assert_eq!(pgn_arg(&json(r#"{"pgn":"1. e4 *"}"#)), Ok("1. e4 *".to_string()));
}

#[test]
fn save_as_study_arguments() {
    use_save_as_study_arguments();
}

fn use_save_as_study_arguments() {
    let c = caps();
    let a = save_as_study_args(&json(r#"{"game_id":4,"name":"Najdorf","folder_id":2,"depth":500}"#), &c, false)
        .ok()
        .unwrap();
    assert_eq!((a.game_id, a.name.as_str(), a.folder_id, a.analyse, a.depth), (4, "Najdorf", Some(2), false, 60));
    let a = save_as_study_args(&json(r#"{"game_id":4,"name":"N"}"#), &c, false).ok().unwrap();
    assert_eq!(a.depth, 18);
    assert_eq!(
        save_as_study_args(&json(r#"{"game_id":4,"name":"N","analyse":true}"#), &c, false).err(),
        Some("No engine configured: start chess-base with --engine / CHESS_BASE_ENGINE.".to_string())
    );
    assert_eq!(
        save_as_study_args(&json(r#"{"name":"N"}"#), &c, true).err(),
        Some("Invalid arguments: missing integer field `game_id`.".to_string())
    );
}

#[test]
fn folder_updates_must_change_something() {
    assert_eq!(
        folder_update_args(&json(r#"{"folder_id":3}"#)).err(),
        Some("Invalid arguments: set `name` and/or `reparent` to change something.".to_string())
    );
    let a = folder_update_args(&json(r#"{"folder_id":3,"reparent":true,"parent_id":null}"#)).ok().unwrap();
    assert!(a.reparent);
    assert_eq!(a.parent_id, None);
    assert_eq!(a.name, None);
}

#[test]
fn opening_tree_and_danger_map_arguments() {
    let c = caps();
    let a = opening_tree_args(&json(r#"{"color":"black","plan_lines":9,"player":"Tal"}"#), &c, true, &None).ok().unwrap();
    assert_eq!(a.start_fen, "rnbqkbnr/pppppppp/8/8/8/8/PPPPPPPP/RNBQKBNR w KQkq - 0 1");
    assert_eq!(a.depth, 18);
    assert_eq!(a.plan_lines, 3);
    let off = opening_tree_args(&json(r#"{"plan_lines":0}"#), &c, true, &None).ok().unwrap();
    assert_eq!(off.plan_lines, 0);
    assert_eq!(
        opening_tree_args(&json(r#"{"plan_lines":-1}"#), &c, true, &None).err(),
        Some("Invalid arguments: `plan_lines` must be an integer >= 0.".to_string())
    );
    assert!(matches!(a.color, Some(Color::Black)));
    assert_eq!(a.player.as_deref(), Some("Tal"));
    assert!(a.save_as.is_none());
    assert_eq!(
        opening_tree_args(&json(r#"{"color":"red"}"#), &c, true, &None).err(),
        Some("Invalid arguments: color must be 'white' or 'black', got 'red'".to_string())
    );
    assert_eq!(
        opening_tree_args(&json(r#"{"save_as":{"name":"x"}}"#), &c, true, &None).err(),
        Some("Invalid arguments: `save_as` needs an integer `database_id`.".to_string())
    );
    let o = danger_map_options(
        &json(r#"{"spine_pgn":"1. e4 c5 *","multipv":40,"save_as":{"database_id":2,"name":"R","global":true}}"#),
        &c,
        true,
        &None,
        &None,
    )
        .ok()
        .unwrap();
    assert_eq!((o.movetime_ms, o.multipv), (500, 16));
    assert_eq!(o.spine_pgn, "1. e4 c5 *");
    let s = o.save_as.expect("save_as");
    assert_eq!((s.database_id, s.name.as_str(), s.global), (2, "R", true));
    assert_eq!(
        danger_map_options(&json(r#"{"spine_pgn":"1. e4 *","movetime_ms":0}"#), &c, true, &None, &None).err(),
        Some("Invalid arguments: `movetime_ms` must be an integer >= 1.".to_string())
    );
}

#[test]
fn small_argument_readers() {
    assert_eq!(start_fen_arg(&json(r#"{"fen":"8/8/8/8/8/8/8/K6k w - - 0 1"}"#)), "8/8/8/8/8/8/8/K6k w - - 0 1");
    assert_eq!(reference_limit(&json("{}")), Ok(20));
    assert_eq!(reference_limit(&json(r#"{"limit":999}"#)), Ok(200));
    assert_eq!(merge_game_ids(&json(r#"{"game_ids":[1,2]}"#)), Ok(vec![1, 2]));
    assert_eq!(merge_game_ids(&json("{}")), Err("Invalid arguments: missing array field `game_ids`.".to_string()));
    assert!(matches!(export_format(&json("{}")), Ok(ExportFormat::Pgn)));
    assert!(matches!(export_format(&json(r#"{"format":"lichess"}"#)), Ok(ExportFormat::Lichess)));
    assert_eq!(
        export_format(&json(r#"{"format":"json"}"#)).err(),
        Some("Invalid arguments: unknown `format` 'json' (use `pgn` or `lichess`).".to_string())
    );
    assert_eq!(str_arg(&json(r#"{"k":"v"}"#), "k").as_deref(), Some("v"));
    assert_eq!(str_arg(&json(r#"{"player":""}"#), "player"), None);
    assert_eq!(str_arg(&json(r#"{"k":3}"#), "k"), None);
    assert_eq!(int_arg(&json(r#"{"k":-7}"#), "k"), Some(-7));
    assert_eq!(int_arg(&json(r#"{"k":9999999999}"#), "k"), None);
    assert!(is_absent_or_null(&json(r#"{"k":null}"#), "k"));
    assert!(!is_absent_or_null(&json(r#"{"k":0}"#), "k"));
}

#[test]
fn service_failures_never_leak_storage_details() {
    assert_eq!(database_error(&ServiceFailure::Db).text, "database query failed");
    assert_eq!(database_error(&ServiceFailure::Other("no such database".to_string())).text, "no such database");
    assert_eq!(folder_error(&ServiceFailure::Db).text, "folder operation failed: database error");
    assert_eq!(import_error(&ServiceFailure::Db).text, "import failed: database error");
    assert_eq!(game_error(&GameError::NotFound).text, "game not found");
    assert_eq!(game_error(&GameError::Db).text, "database query failed");
    assert_eq!(review_error(&ReviewError::BadGame("empty".to_string())).text, "could not review game: empty");
    assert_eq!(review_error(&ReviewError::Engine).text, "engine analysis failed");
    assert_eq!(spine_error(&WalkError::InvalidFen("x".to_string())).text, "invalid FEN: x");
    assert_eq!(tree_error(&WalkError::Source).text, "could not read the position from the database");
    assert_eq!(header_error(&HeaderSearchError::InvalidCursor).text, "invalid arguments: bad `cursor`");
    assert_eq!(header_error(&HeaderSearchError::BadRequest("x".to_string())).text, "invalid arguments: x");
    assert_eq!(header_error(&HeaderSearchError::NotFound).text, "database not found");
    assert!(header_error(&HeaderSearchError::Db).is_error);
}

#[test]
fn engine_and_configuration_are_checked_first() {
    let c = caps();
    let no_engine = "No engine configured: start chess-base with --engine / CHESS_BASE_ENGINE.".to_string();
    assert_eq!(opening_tree_args(&json(r#"{"color":"red"}"#), &c, false, &None).err(), Some(no_engine.clone()));
    assert_eq!(
        opening_tree_args(&json(r#"{"tree":{"max_depth":"x"},"color":"red"}"#), &c, true, &Some("expected u32".to_string()))
            .err(),
        Some("Invalid arguments: bad `tree`: expected u32".to_string())
    );
    assert!(opening_tree_args(&json(r#"{"tree":null}"#), &c, true, &Some("ignored".to_string())).is_ok());

    assert_eq!(
        danger_map_options(&json("{}"), &c, false, &None, &None).err(),
        Some("Invalid arguments: missing string field `spine_pgn`.".to_string())
    );
    assert_eq!(danger_map_options(&json(r#"{"spine_pgn":"1. e4 *"}"#), &c, false, &None, &None).err(), Some(no_engine.clone()));
    assert_eq!(
        danger_map_options(&json(r#"{"spine_pgn":"1. e9 *"}"#), &c, true, &Some("illegal move".to_string()), &None).err(),
        Some("Invalid arguments: bad `spine_pgn`: illegal move".to_string())
    );
    assert_eq!(
        danger_map_options(&json(r#"{"spine_pgn":"1. e4 *","spine":{"our_side":3}}"#), &c, true, &None, &Some("bad side".to_string()))
            .err(),
        Some("Invalid arguments: bad `spine`: bad side".to_string())
    );

    assert_eq!(analyse_game_args(&json("{}"), &c, false).err(), Some(no_engine));
    assert_eq!(
        analyse_game_args(&json(r#"{"pgn":"  "}"#), &c, true).err(),
        Some("Invalid arguments: missing string field `pgn`.".to_string())
    );
    let a = analyse_game_args(&json(r#"{"pgn":"1. e4 *","depth":999}"#), &c, true).ok().unwrap();
    assert_eq!((a.pgn.as_str(), a.depth), ("1. e4 *", 60));
    assert_eq!(mainline_check(Ok(0)), Err("the PGN has no moves to analyse".to_string()));
    assert_eq!(mainline_check(Err("bad token".to_string())), Err("could not parse PGN: bad token".to_string()));
    assert_eq!(mainline_check(Ok(3)), Ok(()));
}
