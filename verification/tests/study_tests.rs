use chess_base::analysis::{
    after_eval, classify_search, first_uci, node_searches, search_figures, Analysis, BoardFeatures, NodeSearch, Score,
};
use chess_base::identity::CurrentUser;
use chess_base::repertoire::{
    game_label, is_standard_start, merge_sources, surname, white_score, year, CandidateGame, WhiteResult,
};
use chess_base::study::{
    add_line_target, add_move_to_tree, annotate_node, check_standard_tree, check_writable, fen_at, graft_line, graft_point,
    new_study_name, read_scope, readable, resolve_move, resolve_san, san_core, set_node_shapes,
    study_owner, LineTarget, StudyError,
};
use chess_base::tool_args::MoveInput;
use chess_base::tree::Eval;
use chess_base::tool_errors::study_error;
use chess_base::tree::{clear_shapes, merge_shapes, set_quality_nag, ClearShapesScope, MoveTree, Shape};

const STARTPOS: &str = "rnbqkbnr/pppppppp/8/8/8/8/PPPPPPPP/RNBQKBNR w KQkq - 0 1";
const AFTER_E4: &str = "rnbqkbnr/pppppppp/8/8/4P3/8/PPPP1PPP/RNBQKBNR b KQkq e3 0 1";
const AFTER_E4_E5: &str = "rnbqkbnr/pppp1ppp/8/4p3/4P3/8/PPPP1PPP/RNBQKBNR w KQkq e6 0 2";
const AFTER_D4: &str = "rnbqkbnr/pppppppp/8/8/3P4/8/PPP1PPPP/RNBQKBNR b KQkq d3 0 1";

fn user(id: &str) -> CurrentUser {
    CurrentUser { id: id.to_string(), is_admin: false, public: false, read_only: false, global_only: false }
}

#[test]
fn read_scope_for_the_anonymous_caller_is_the_public_arm_only() {
    let cond = read_scope(&CurrentUser::anonymous());
    let sql = cond.condition();
    assert!(sql.contains("public"), "missing public arm: {sql}");
    assert!(!sql.contains("owner_id"), "leaked an owner arm: {sql}");
}

#[test]
fn read_scope_for_an_authenticated_caller_keeps_ownership_and_adds_public() {
    let cond = read_scope(&user("alice"));
    let sql = cond.condition();
    assert!(sql.contains("alice"), "missing own-rows arm: {sql}");
    assert!(sql.contains("public"), "missing public arm: {sql}");
}

#[test]
fn anonymous_reads_public_rows_only() {
    let anon = read_scope(&CurrentUser::anonymous());
    assert!(readable(&anon, Some("alice"), true));
    assert!(!readable(&anon, Some("alice"), false));
    assert!(!readable(&anon, None, false));
    let alice = read_scope(&user("alice"));
    assert!(readable(&alice, Some("alice"), false));
    assert!(readable(&alice, None, false));
    assert!(!readable(&alice, Some("bob"), false));
    assert!(readable(&alice, Some("bob"), true));
}

#[test]
fn set_quality_nag_replaces_only_the_quality_glyph() {
    let mut tree = MoveTree::new();
    let e4 = tree.add_move(tree.root, "e4".to_string());
    tree.add_nag(e4, 1);
    tree.add_nag(e4, 14);
    set_quality_nag(&mut tree, e4, Some(2));
    assert_eq!(tree.nodes[e4].nags, vec![14, 2]);
}

#[test]
fn set_quality_nag_none_clears_without_adding() {
    let mut tree = MoveTree::new();
    let e4 = tree.add_move(tree.root, "e4".to_string());
    tree.add_nag(e4, 4);
    set_quality_nag(&mut tree, e4, None);
    assert!(tree.nodes[e4].nags.is_empty());
}

#[test]
fn regrading_with_the_same_glyph_is_stable() {
    let mut tree = MoveTree::new();
    let e4 = tree.add_move(tree.root, "e4".to_string());
    tree.add_nag(e4, 14);
    set_quality_nag(&mut tree, e4, Some(3));
    let once = tree.nodes[e4].nags.clone();
    set_quality_nag(&mut tree, e4, Some(3));
    assert_eq!(tree.nodes[e4].nags, once);
}

fn replay(line: Vec<String>) -> Result<Vec<String>, String> {
    let l: Vec<&str> = line.iter().map(|s| s.as_str()).collect();
    match l.as_slice() {
        [] => Ok(vec![]),
        ["e4"] => Ok(vec![AFTER_E4.to_string()]),
        ["d4"] => Ok(vec![AFTER_D4.to_string()]),
        ["e4", "e5"] => Ok(vec![AFTER_E4.to_string(), AFTER_E4_E5.to_string()]),
        _ => Err(format!("cannot replay {l:?}")),
    }
}

fn black_to_move(fen: String) -> Result<bool, String> {
    Ok(fen.split(' ').nth(1) == Some("b"))
}

#[test]
fn node_searches_skips_the_root_and_walks_variations() {
    let mut tree = MoveTree::new();
    let e4 = tree.add_move(tree.root, "e4".to_string());
    let d4 = tree.add_move(tree.root, "d4".to_string());
    let e5 = tree.add_move(e4, "e5".to_string());

    let searches = node_searches(&tree, STARTPOS, replay, black_to_move).unwrap();
    let ids: Vec<usize> = searches.iter().map(|s| s.node_id).collect();
    assert_eq!(ids, vec![e4, d4, e5]);

    let by_id = |id: usize| searches.iter().find(|s| s.node_id == id).unwrap();
    assert!(by_id(e4).fen_before.starts_with("rnbqkbnr/pppppppp/8/8/8/8/PPPPPPPP/RNBQKBNR w"));
    assert!(by_id(d4).fen_before.starts_with("rnbqkbnr/pppppppp/8/8/8/8/PPPPPPPP/RNBQKBNR w"));
    assert!(by_id(e4).fen_after.starts_with("rnbqkbnr/pppppppp/8/8/4P3/8/PPPP1PPP/RNBQKBNR b"));
    assert_eq!(by_id(e5).fen_before, by_id(e4).fen_after);
    assert!(by_id(e5).fen_after.contains(" w "));
    assert!(by_id(e4).mover_white);
    assert!(!by_id(e5).mover_white);
}

#[test]
fn node_searches_reports_the_first_replay_failure() {
    let mut tree = MoveTree::new();
    tree.add_move(tree.root, "h4".to_string());
    assert_eq!(node_searches(&tree, STARTPOS, replay, black_to_move).err(), Some("cannot replay [\"h4\"]".to_string()));
}

#[test]
fn lines_walk_from_the_root() {
    let mut tree = MoveTree::new();
    let e4 = tree.add_move(tree.root, "e4".to_string());
    let e5 = tree.add_move(e4, "e5".to_string());
    assert_eq!(tree.line_to(e5), Some(vec!["e4".to_string(), "e5".to_string()]));
    assert_eq!(tree.line_to(tree.root), Some(vec![]));
    assert_eq!(tree.line_to(99), None);
}

fn shape(brush: &str) -> Shape {
    Shape { orig: "g1".to_string(), dest: Some("f3".to_string()), brush: brush.to_string() }
}

#[test]
fn clearing_generated_shapes_keeps_user_shapes() {
    let mut tree = MoveTree::new();
    let e4 = tree.add_move(tree.root, "e4".to_string());
    tree.set_shapes(e4, vec![shape("plan1"), shape("green"), shape("threat"), shape("plan2d")]);
    clear_shapes(&mut tree, ClearShapesScope::Generated);
    let brushes: Vec<&str> = tree.nodes[e4].shapes.iter().map(|s| s.brush.as_str()).collect();
    assert_eq!(brushes, vec!["green"]);
    clear_shapes(&mut tree, ClearShapesScope::All);
    assert!(tree.nodes[e4].shapes.is_empty());
    let merged = merge_shapes(vec![shape("plan3"), shape("red")], vec![shape("plan1")]);
    let brushes: Vec<&str> = merged.iter().map(|s| s.brush.as_str()).collect();
    assert_eq!(brushes, vec!["red", "plan1"]);
}

#[test]
fn san_is_matched_ignoring_check_marks() {
    assert_eq!(san_core("Qxf7#"), "Qxf7");
    assert_eq!(san_core("Qh5+"), "Qh5");
    assert_eq!(san_core("e4"), "e4");
    let legal = vec!["Nf3".to_string(), "Qh5+".to_string()];
    assert_eq!(resolve_san(&legal, "Qh5", "fen").ok(), Some("Qh5+".to_string()));
    match resolve_san(&legal, "Qh6", "fen") {
        Err(e) => {
            assert_eq!(e.to_text(), "illegal move 'Qh6' in position fen");
            assert_eq!(e.status(), 400);
        },
        Ok(_) => panic!("illegal"),
    }
}

#[test]
fn study_errors_read_as_their_messages() {
    assert_eq!(StudyError::InvalidNode(7).to_text(), "node 7 not found in study");
    assert_eq!(StudyError::NotFound.status(), 404);
    assert_eq!(StudyError::InvalidNode(99).status(), 404);
    assert_eq!(StudyError::Forbidden.to_text(), "not permitted");
    assert_eq!(StudyError::Tree("eof".to_string()).to_text(), "corrupt study tree: eof");
    assert_eq!(StudyError::Pgn { message: "m".to_string(), missing_san: true }.status(), 500);
    assert_eq!(StudyError::Pgn { message: "m".to_string(), missing_san: false }.status(), 400);
}

#[test]
fn db_errors_are_not_leaked_in_tool_text() {
    let outcome = study_error(&StudyError::NotFound);
    assert!(outcome.is_error);
    assert_eq!(outcome.text, "study not found");
    let outcome = study_error(&StudyError::Db("secret".to_string()));
    assert_eq!(outcome.text, "study operation failed: database error");
}

#[test]
fn write_guard_and_ownership() {
    let alice = user("alice");
    assert!(matches!(check_writable(None, &alice), Err(StudyError::NotFound)));
    assert!(matches!(check_writable(Some(Some("bob")), &alice), Err(StudyError::Forbidden)));
    assert!(matches!(check_writable(Some(None), &alice), Err(StudyError::Forbidden)));
    assert!(check_writable(Some(Some("alice")), &alice).is_ok());
    assert!(matches!(study_owner(&alice, true), Err(StudyError::Forbidden)));
    assert_eq!(study_owner(&alice, false).ok(), Some(Some("alice".to_string())));
}

#[test]
fn adding_a_line_needs_moves_a_name_and_a_database() {
    assert!(matches!(add_line_target(0, Some(1), None, None), Err(StudyError::InvalidEdit(m)) if m == "no moves to add"));
    assert!(matches!(add_line_target(2, Some(5), None, None), Ok(LineTarget::Existing(5))));
    assert!(matches!(
        add_line_target(2, None, Some(3), Some("   ")),
        Err(StudyError::InvalidEdit(m)) if m == "a name is required for a new study"
    ));
    assert!(matches!(
        add_line_target(2, None, None, Some("Rep")),
        Err(StudyError::InvalidEdit(m)) if m == "a database is required for a new study"
    ));
    assert!(matches!(
        add_line_target(2, None, Some(3), Some("  Rep ")),
        Ok(LineTarget::New { name, database_id: 3 }) if name == "Rep"
    ));
    assert_eq!(new_study_name(Some(" x ")).ok(), Some("x".to_string()));
    assert!(check_standard_tree(STARTPOS, "add a line to").is_ok());
    assert!(matches!(
        check_standard_tree("8/8/8/8/8/8/8/K6k w - - 0 1", "add a line to"),
        Err(StudyError::InvalidEdit(m)) if m == "cannot add a line to a study with a set-up start position"
    ));
}

#[test]
fn game_metadata_for_merged_lines() {
    assert_eq!(surname(Some("Carlsen, Magnus")), "Carlsen");
    assert_eq!(surname(Some("  ")), "?");
    assert_eq!(surname(None), "?");
    assert_eq!(surname(Some(" Kasparov ")), "Kasparov");
    assert_eq!(year(Some("2023.05.01")), Some("2023".to_string()));
    assert_eq!(year(Some("????.??.??")), None);
    assert_eq!(year(Some("99")), None);
    assert_eq!(game_label(Some("Carlsen, Magnus"), Some("Nepo, Ian"), Some("2021.12.03")), "Carlsen\u{2013}Nepo 2021");
    assert_eq!(game_label(None, Some("B"), None), "?\u{2013}B");
    assert_eq!(white_score(Some(" 1-0 ")), Some(WhiteResult::Win));
    assert_eq!(white_score(Some("0-1")), Some(WhiteResult::Loss));
    assert_eq!(white_score(Some("1/2-1/2")), Some(WhiteResult::Draw));
    assert_eq!(white_score(Some("\u{bd}-\u{bd}")), Some(WhiteResult::Draw));
    assert_eq!(white_score(Some("*")), None);
    assert!(is_standard_start("", None));
    assert!(is_standard_start("Standard", Some(STARTPOS)));
    assert!(is_standard_start("CHESS", None));
    assert!(!is_standard_start("Chess960", None));
    assert!(!is_standard_start("", Some("8/8/8/8/8/8/8/K6k w - - 0 1")));
}

fn candidate(db: i32, variant: &str, mainline: Option<Vec<&str>>) -> CandidateGame {
    CandidateGame {
        database_id: db,
        variant: variant.to_string(),
        start_fen: None,
        white: Some("Carlsen, Magnus".to_string()),
        black: Some("Caruana, Fabiano".to_string()),
        date: Some("2018.11.09".to_string()),
        result: Some("1/2-1/2".to_string()),
        mainline: mainline.map(|m| m.iter().map(|s| s.to_string()).collect()),
    }
}

#[test]
fn merge_selects_standard_games_with_moves() {
    assert!(matches!(merge_sources(&vec![]), Err(StudyError::InvalidEdit(m)) if m == "no games to merge"));
    let none = vec![candidate(1, "Chess960", Some(vec!["e4"])), candidate(1, "", Some(vec![])), candidate(1, "", None)];
    assert!(matches!(
        merge_sources(&none),
        Err(StudyError::InvalidEdit(m)) if m == "no mergeable games (all empty, set-up or non-standard)"
    ));
    let games = vec![candidate(4, "", None), candidate(7, "standard", Some(vec!["e4", "e5"])), candidate(9, "", Some(vec!["d4"]))];
    let (sources, db) = merge_sources(&games).ok().expect("mergeable");
    assert_eq!(db, 7);
    assert_eq!(sources.len(), 2);
    assert_eq!(sources[0].sans, vec!["e4".to_string(), "e5".to_string()]);
    assert_eq!(sources[0].label, "Carlsen\u{2013}Caruana 2018");
    assert_eq!(sources[1].white_score, Some(WhiteResult::Draw));
}

fn line(uci: &str, cp: i32) -> Analysis {
    Analysis { bestmove: uci.to_string(), score: Some(Score::Cp { value: cp }), pv: vec![uci.to_string()] }
}

#[test]
fn after_eval_reads_the_board_first() {
    let mate = BoardFeatures { checkmate: true, stalemate: false, insufficient_material: false };
    let stale = BoardFeatures { checkmate: false, stalemate: true, insufficient_material: false };
    let plain = BoardFeatures { checkmate: false, stalemate: false, insufficient_material: false };
    assert_eq!(after_eval(Some(mate), Some(Score::Cp { value: 50 })), Score::Mate { value: 1 });
    assert_eq!(after_eval(Some(stale), Some(Score::Cp { value: 50 })), Score::Cp { value: 0 });
    assert_eq!(after_eval(Some(plain), Some(Score::Cp { value: -30 })), Score::Cp { value: 30 });
    assert_eq!(after_eval(None, Some(Score::Mate { value: 2 })), Score::Mate { value: -2 });
    assert_eq!(after_eval(Some(plain), None), Score::Cp { value: 0 });
    assert_eq!(after_eval(Some(mate), Some(Score::Cp { value: i32::MIN })), Score::Mate { value: 1 });
    assert_eq!(after_eval(Some(stale), Some(Score::Mate { value: i32::MIN })), Score::Cp { value: 0 });
}

#[test]
fn search_figures_for_the_top_move_and_a_blunder() {
    let before = vec![line("e2e4", 30), line("d2d4", 20)];
    let f = search_figures(&before, Some("e2e4"), None, Some(Score::Cp { value: -30 }));
    assert!(f.played_is_best);
    assert_eq!(f.best_before, Score::Cp { value: 30 });
    assert_eq!(f.second_best, Some(Score::Cp { value: 20 }));
    assert_eq!(f.after_played, Score::Cp { value: 30 });
    let before = vec![line("e2e4", 400), line("d2d4", 350)];
    let f = search_figures(&before, Some("a2a4"), None, Some(Score::Cp { value: 400 }));
    assert!(!f.played_is_best);
    assert_eq!(f.after_played, Score::Cp { value: -400 });
    let empty: Vec<Analysis> = vec![];
    let f = search_figures(&empty, Some("e2e4"), None, None);
    assert_eq!(f.best_before, Score::Cp { value: 0 });
    assert!(!f.played_is_best);
}

#[test]
fn first_uci_prefers_the_pv() {
    let a = Analysis { bestmove: "g1f3".to_string(), score: None, pv: vec![] };
    assert_eq!(first_uci(Some(&a)), Some("g1f3".to_string()));
    let none = Analysis { bestmove: "(none)".to_string(), score: None, pv: vec![] };
    assert_eq!(first_uci(Some(&none)), None);
    assert_eq!(first_uci(Some(&line("e2e4", 1))), Some("e2e4".to_string()));
    assert_eq!(first_uci(None), None);
}

#[test]
fn annotating_toggles_glyphs_and_sets_comments() {
    let mut tree = MoveTree::new();
    let e4 = tree.add_move(tree.root, "e4".to_string());
    annotate_node(&mut tree, e4, Some("main line".to_string()), Some(14)).ok().unwrap();
    assert_eq!(tree.nodes[e4].comment.as_deref(), Some("main line"));
    assert_eq!(tree.nodes[e4].nags, vec![14]);
    annotate_node(&mut tree, e4, None, Some(1)).ok().unwrap();
    annotate_node(&mut tree, e4, None, Some(2)).ok().unwrap();
    assert_eq!(tree.nodes[e4].nags, vec![14, 2]);
    annotate_node(&mut tree, e4, None, Some(14)).ok().unwrap();
    assert_eq!(tree.nodes[e4].nags, vec![2]);
    assert!(matches!(annotate_node(&mut tree, 42, None, Some(1)), Err(StudyError::InvalidNode(42))));
    assert!(matches!(set_node_shapes(&mut tree, 42, vec![]), Err(StudyError::InvalidNode(42))));
    set_node_shapes(&mut tree, e4, vec![shape("green")]).ok().unwrap();
    assert_eq!(tree.nodes[e4].shapes.len(), 1);
    assert_eq!(graft_point(&tree, None).ok(), Some(0));
    assert!(matches!(graft_point(&tree, Some(9)), Err(StudyError::InvalidNode(9))));
}

#[test]
fn a_plain_export_drops_evaluations() {
    let mut tree = MoveTree::new();
    let e4 = tree.add_move(tree.root, "e4".to_string());
    tree.set_eval(e4, Eval::Cp(25));
    tree.add_nag(e4, 1);
    tree.strip_evals();
    assert_eq!(tree.nodes[e4].eval, None);
    assert_eq!(tree.nodes[e4].nags, vec![1]);
}

#[test]
fn the_position_at_a_line_and_move_resolution() {
    assert_eq!(fen_at(vec![], replay).ok(), Some(STARTPOS.to_string()));
    assert_eq!(fen_at(vec!["e4".to_string(), "e5".to_string()], replay).ok(), Some(AFTER_E4_E5.to_string()));
    assert!(fen_at(vec!["a3".to_string()], replay).is_err());

    let legal = |_fen: &str| -> Result<Vec<String>, String> { Ok(vec!["e4".to_string(), "Nf3".to_string()]) };
    let broken = |_fen: &str| -> Result<Vec<String>, String> { Err("bad fen".to_string()) };
    let uci = |_fen: &str, u: &String| -> Result<String, String> {
        if u == "g1f3" { Ok("Nf3".to_string()) } else { Err("illegal".to_string()) }
    };
    assert_eq!(resolve_move(STARTPOS, &MoveInput::San("Nf3+".to_string()), legal, uci).ok(), Some("Nf3".to_string()));
    assert_eq!(resolve_move(STARTPOS, &MoveInput::Uci("g1f3".to_string()), legal, uci).ok(), Some("Nf3".to_string()));
    assert!(matches!(
        resolve_move(STARTPOS, &MoveInput::Uci("a1a8".to_string()), legal, uci),
        Err(StudyError::IllegalMove { san, .. }) if san == "a1a8"
    ));
    assert!(matches!(
        resolve_move(STARTPOS, &MoveInput::San("e4".to_string()), broken, uci),
        Err(StudyError::Position(m)) if m == "bad fen"
    ));
}

#[test]
fn adding_a_move_checks_it_and_reports_the_new_position() {
    let mut tree = MoveTree::new();
    let e4 = tree.add_move(tree.root, "e4".to_string());
    let legal = |fen: &str| -> Result<Vec<String>, String> {
        if fen == AFTER_E4 { Ok(vec!["e5".to_string(), "c5".to_string()]) } else { Ok(vec!["e4".to_string()]) }
    };
    let uci = |_fen: &str, u: &String| -> Result<String, String> {
        if u == "e7e5" { Ok("e5".to_string()) } else { Err("illegal".to_string()) }
    };
    let apply = |fen: &str, san: &str| -> Result<String, String> {
        if fen == AFTER_E4 && san == "e5" { Ok(AFTER_E4_E5.to_string()) } else { Err("cannot apply".to_string()) }
    };
    let added = add_move_to_tree(&mut tree, e4, &MoveInput::San("e5".to_string()), replay, legal, uci, apply)
        .ok()
        .expect("legal move");
    assert_eq!(added.node_id, 2);
    assert_eq!(added.fen, AFTER_E4_E5);
    assert_eq!(added.san, "e5");
    assert_eq!(tree.nodes[e4].children, vec![2]);
    let before = tree.nodes.len();
    assert!(matches!(
        add_move_to_tree(&mut tree, e4, &MoveInput::Uci("a7a5".to_string()), replay, legal, uci, apply),
        Err(StudyError::IllegalMove { .. })
    ));
    assert!(matches!(
        add_move_to_tree(&mut tree, 77, &MoveInput::San("e5".to_string()), replay, legal, uci, apply),
        Err(StudyError::InvalidNode(77))
    ));
    assert_eq!(tree.nodes.len(), before);
}

/// How the classification tests grade a move: the engine's top move is
/// best, a loss of three pawns or more a blunder, anything else good.
#[derive(Debug, Clone, Copy, PartialEq)]
enum Grade {
    Best,
    Good,
    Blunder,
}

struct Cost {
    white: bool,
}

fn centipawns(s: Score) -> i64 {
    match s {
        Score::Cp { value } => value as i64,
        Score::Mate { value } => if value > 0 { 100_000 } else { -100_000 },
    }
}

fn grade(best: Score, after: Score, played_is_best: bool, _second: Option<Score>) -> Grade {
    if played_is_best {
        Grade::Best
    } else if centipawns(best) - centipawns(after) >= 300 {
        Grade::Blunder
    } else {
        Grade::Good
    }
}

fn white_side(s: Score, mover_white: bool) -> Eval {
    let sign = if mover_white { 1 } else { -1 };
    match s {
        Score::Cp { value } => Eval::Cp(sign * value),
        Score::Mate { value } => Eval::Mate(sign * value),
    }
}

fn uci_of(_fen: String, san: String) -> Option<String> {
    match san.as_str() {
        "e4" => Some("e2e4".to_string()),
        "a4" => Some("a2a4".to_string()),
        "Qxf7" => Some("h5f7".to_string()),
        _ => None,
    }
}

fn searched(fen_before: &str, fen_after: &str, san: &str, mover_white: bool) -> NodeSearch {
    NodeSearch {
        node_id: 1,
        fen_before: fen_before.to_string(),
        fen_after: fen_after.to_string(),
        san: san.to_string(),
        mover_white,
    }
}

const OPENING: &str = "rnbqkbnr/pppppppp/8/8/8/8/PPPPPPPP/RNBQKBNR w KQkq - 0 1";
const PLAIN: BoardFeatures = BoardFeatures { checkmate: false, stalemate: false, insufficient_material: false };

#[test]
fn classify_search_flags_the_engines_top_move_as_best() {
    let fen_after = "rnbqkbnr/pppppppp/8/8/4P3/8/PPPP1PPP/RNBQKBNR b KQkq e3 0 1";
    let s = searched(OPENING, fen_after, "e4", true);
    let before = vec![line("e2e4", 30), line("d2d4", 20)];
    let (eval, classification, cost) = classify_search(
        &s,
        &before,
        Some(Score::Cp { value: -30 }),
        Some(PLAIN),
        uci_of,
        grade,
        |white: bool, _b: Score, _a: Score, _c: Grade| Cost { white },
        white_side,
    );
    assert_eq!(classification, Grade::Best);
    assert_eq!(eval, Eval::Cp(30));
    assert!(cost.white);
}

#[test]
fn classify_search_flags_a_blunder() {
    let fen_after = "rnbqkbnr/pppppppp/8/8/P7/8/1PPPPPPP/RNBQKBNR b KQkq a3 0 1";
    let s = searched(OPENING, fen_after, "a4", true);
    let before = vec![line("e2e4", 400), line("d2d4", 350)];
    let (eval, classification, _) = classify_search(
        &s,
        &before,
        Some(Score::Cp { value: 400 }),
        Some(PLAIN),
        uci_of,
        grade,
        |white: bool, _b: Score, _a: Score, _c: Grade| Cost { white },
        white_side,
    );
    assert_eq!(classification, Grade::Blunder);
    assert!(matches!(eval, Eval::Cp(v) if v < 0));
}

#[test]
fn classify_search_handles_a_delivered_mate_with_no_after_search() {
    let fen_before = "r1bqkb1r/pppp1ppp/2n2n2/4p2Q/2B1P3/8/PPPP1PPP/RNB1K1NR w KQkq - 4 4";
    let fen_after = "r1bqkb1r/pppp1Qpp/2n2n2/4p3/2B1P3/8/PPPP1PPP/RNB1K1NR b KQkq - 0 4";
    let mated = BoardFeatures { checkmate: true, stalemate: false, insufficient_material: false };
    let s = searched(fen_before, fen_after, "Qxf7#", true);
    let before = vec![line("h5f7", 900)];
    let (eval, classification, _) = classify_search(
        &s,
        &before,
        None,
        Some(mated),
        uci_of,
        grade,
        |white: bool, _b: Score, _a: Score, _c: Grade| Cost { white },
        white_side,
    );
    assert_eq!(eval, Eval::Mate(1));
    assert_eq!(classification, Grade::Best);
}

/// The child of `parent` playing `san`, if any.
fn child_playing(tree: &MoveTree, parent: usize, san: &str) -> Option<usize> {
    tree.nodes[parent].children.iter().copied().find(|c| tree.nodes[*c].san.as_deref() == Some(san))
}

/// A stand-in graft: follows the moves already present and appends the
/// rest, stopping at the first move it treats as illegal (`Ke9`).
fn graft_moves(mut tree: MoveTree, at: usize, src: &MoveTree) -> MoveTree {
    let mut here = at;
    let mut from = src.root;
    while let Some(&next) = src.nodes[from].children.first() {
        let san = src.nodes[next].san.clone().unwrap();
        if san == "Ke9" {
            break;
        }
        here = match child_playing(&tree, here, &san) {
            Some(c) => c,
            None => tree.add_move(here, san),
        };
        from = next;
    }
    tree
}

fn resolve_moves(tree: &MoveTree, at: usize, sans: &Vec<String>) -> Option<usize> {
    let mut here = at;
    for san in sans {
        here = child_playing(tree, here, san)?;
    }
    Some(here)
}

fn linear(sans: &[&str]) -> MoveTree {
    let mut t = MoveTree::new();
    let mut here = t.root;
    for s in sans {
        here = t.add_move(here, s.to_string());
    }
    t
}

#[test]
fn graft_line_follows_existing_moves_and_comments_the_last() {
    let mut tree = MoveTree::new();
    let e4 = tree.add_move(0, "e4".to_string());
    let sans = vec!["e4".to_string(), "c5".to_string()];
    let src = linear(&["e4", "c5"]);
    let r = graft_line(&mut tree, &src, &sans, Some("12 games".to_string()), graft_moves, resolve_moves);
    assert!(r.is_ok());
    assert_eq!(tree.nodes.len(), 3);
    let c5 = child_playing(&tree, e4, "c5").unwrap();
    assert_eq!(tree.nodes[c5].comment.as_deref(), Some("12 games"));
    assert_eq!(tree.nodes[e4].comment, None);

    let again = graft_line(&mut tree, &src, &sans, None, graft_moves, resolve_moves);
    assert!(again.is_ok());
    assert_eq!(tree.nodes.len(), 3);

    let bad = vec!["e4".to_string(), "Ke9".to_string()];
    let r = graft_line(&mut tree, &linear(&["e4", "Ke9"]), &bad, None, graft_moves, resolve_moves);
    assert!(matches!(r, Err(StudyError::InvalidEdit(m)) if m == "line contains an illegal move"));
}
