use chess_base::danger::{
    annotate_added, danger_comment, format_eval, merge_outcome, roles_digest, DangerKind,
    DangerNode, DangerRole, DangerTag, DangerTree, TrapVerdict,
};
use chess_base::tree::{Eval, MoveTree};

const STARTPOS: &str = "rnbqkbnr/pppppppp/8/8/8/8/PPPPPPPP/RNBQKBNR w KQkq - 0 1";

fn tag(
    kind: DangerKind,
    role: DangerRole,
    trap: Option<TrapVerdict>,
    only_move_gap: Option<i32>,
    miss_pct: Option<u64>,
    eval: Option<Eval>,
) -> DangerTag {
    DangerTag { kind, role, trap, only_move_gap, miss_pct, eval }
}

#[test]
fn format_eval_signs_centipawns_and_prefixes_mate() {
    assert_eq!(format_eval(Eval::Cp(30)), "+0.30");
    assert_eq!(format_eval(Eval::Cp(-40)), "-0.40");
    assert_eq!(format_eval(Eval::Mate(3)), "M3");
    assert_eq!(format_eval(Eval::Mate(-2)), "-M2");
}

#[test]
fn format_eval_handles_zero_and_whole_pawns() {
    assert_eq!(format_eval(Eval::Cp(0)), "+0.00");
    assert_eq!(format_eval(Eval::Cp(-5)), "-0.05");
    assert_eq!(format_eval(Eval::Cp(110)), "+1.10");
    assert_eq!(format_eval(Eval::Cp(-1234)), "-12.34");
    assert_eq!(format_eval(Eval::Mate(0)), "M0");
}

#[test]
fn danger_comment_covers_every_kind() {
    assert_eq!(
        danger_comment(&tag(
            DangerKind::Trap,
            DangerRole::Weapon,
            Some(TrapVerdict::Weapon),
            None,
            None,
            Some(Eval::Cp(30))
        )),
        "Weapon: trap, bounded downside on the best reply (+0.30)"
    );
    // A miss rate of 0.42 reads as 42 percent.
    assert_eq!(
        danger_comment(&tag(DangerKind::OnlyMove, DangerRole::Weapon, None, Some(250), Some(42), None)),
        "Weapon: only move, 42% miss rate"
    );
    assert_eq!(
        danger_comment(&tag(DangerKind::OffBook, DangerRole::OffBook, None, None, None, None)),
        "Off-book: no prepared answer in this repertoire"
    );
    assert_eq!(
        danger_comment(&tag(
            DangerKind::Attack,
            DangerRole::Caution,
            None,
            Some(80),
            None,
            Some(Eval::Cp(-20))
        )),
        "Caution: pawn storm toward your king (-0.20)"
    );
}

#[test]
fn danger_comment_for_a_baited_or_bare_trap() {
    assert_eq!(
        danger_comment(&tag(
            DangerKind::Trap,
            DangerRole::Caution,
            Some(TrapVerdict::HopeChess),
            None,
            None,
            Some(Eval::Cp(-40))
        )),
        "Caution: baited trap, the best reply refutes it (-0.40)"
    );
    assert_eq!(
        danger_comment(&tag(DangerKind::Trap, DangerRole::Weapon, None, None, None, Some(Eval::Mate(2)))),
        "Weapon: trap (M2)"
    );
}

fn dnode(id: usize, san: Option<&str>, t: Option<DangerTag>) -> DangerNode {
    DangerNode {
        id,
        parent: if id == 0 { None } else { Some(id - 1) },
        san: san.map(|s| s.to_string()),
        fen: STARTPOS.to_string(),
        ply: id,
        tag: t,
        children: vec![],
    }
}

#[test]
fn roles_digest_keeps_only_tagged_nodes_in_walk_order() {
    let tree = DangerTree {
        nodes: vec![
            dnode(0, None, None),
            dnode(1, Some("e4"), None),
            dnode(
                2,
                Some("Qh5"),
                Some(tag(DangerKind::Trap, DangerRole::Caution, None, None, None, Some(Eval::Cp(-40)))),
            ),
            dnode(3, Some("Nf6"), Some(tag(DangerKind::OnlyMove, DangerRole::Weapon, None, None, None, None))),
        ],
        root: 0,
    };
    let roles = roles_digest(&tree);
    assert_eq!(roles.len(), 2);
    assert_eq!(roles[0].node_id, 2);
    assert_eq!(roles[0].san.as_deref(), Some("Qh5"));
    assert_eq!(roles[0].kind, "Trap");
    assert_eq!(roles[0].role, "Caution");
    assert_eq!(roles[1].role, "Weapon");
}

/// 0 (root) -1-> e4 [Weapon trap, +0.30] -2-> e5 [Caution baited trap, -0.40]
/// 0 (root) -3-> d4 [Weapon only-move, +1.10, 42% miss rate]
fn sample_danger_tree() -> DangerTree {
    DangerTree {
        nodes: vec![
            dnode(0, None, None),
            dnode(
                1,
                Some("e4"),
                Some(tag(DangerKind::Trap, DangerRole::Weapon, Some(TrapVerdict::Weapon), None, None, Some(Eval::Cp(30)))),
            ),
            dnode(
                2,
                Some("e5"),
                Some(tag(
                    DangerKind::Trap,
                    DangerRole::Caution,
                    Some(TrapVerdict::HopeChess),
                    None,
                    None,
                    Some(Eval::Cp(-40)),
                )),
            ),
            dnode(
                3,
                Some("d4"),
                Some(tag(DangerKind::OnlyMove, DangerRole::Weapon, None, Some(300), Some(42), Some(Eval::Cp(110)))),
            ),
        ],
        root: 0,
    }
}

#[test]
fn grafts_annotate_every_newly_added_node() {
    let danger = sample_danger_tree();
    let mut tree = MoveTree::new();
    let e4 = tree.add_move(0, "e4".to_string());
    let e5 = tree.add_move(e4, "e5".to_string());
    let d4 = tree.add_move(0, "d4".to_string());
    let added = vec![(1, e4), (2, e5), (3, d4)];
    let counts = annotate_added(&mut tree, &danger, &added);
    let outcome = merge_outcome("study", &danger, &added, counts);
    assert_eq!(outcome.added_nodes, 3);
    assert_eq!(outcome.weapons, 2);
    assert_eq!(outcome.cautions, 1);
    assert_eq!(tree.nodes[e4].eval, Some(Eval::Cp(30)));
    assert_eq!(tree.nodes[e4].comment.as_deref(), Some("Weapon: trap, bounded downside on the best reply (+0.30)"));
    assert_eq!(tree.nodes[e4].nags, vec![1]);
    assert_eq!(tree.nodes[e5].comment.as_deref(), Some("Caution: baited trap, the best reply refutes it (-0.40)"));
    assert_eq!(tree.nodes[e5].nags, vec![6]);
    assert_eq!(tree.nodes[d4].comment.as_deref(), Some("Weapon: only move, 42% miss rate (+1.10)"));
    assert_eq!(tree.nodes[d4].nags, vec![1]);
}

#[test]
fn nodes_the_graft_only_followed_are_untouched() {
    let danger = sample_danger_tree();
    let mut tree = MoveTree::new();
    let e4 = tree.add_move(0, "e4".to_string());
    tree.set_comment(e4, "My own prep note".to_string());
    tree.add_nag(e4, 2);
    let e5 = tree.add_move(e4, "e5".to_string());
    let d4 = tree.add_move(0, "d4".to_string());
    let added = vec![(2, e5), (3, d4)];
    let (weapons, cautions) = annotate_added(&mut tree, &danger, &added);
    assert_eq!((weapons, cautions), (1, 1));
    assert_eq!(tree.nodes[e4].comment.as_deref(), Some("My own prep note"));
    assert_eq!(tree.nodes[e4].nags, vec![2]);
    assert_eq!(tree.nodes[e4].eval, None);
    assert_eq!(tree.nodes[e5].eval, Some(Eval::Cp(-40)));
    let none: Vec<(usize, usize)> = vec![];
    assert_eq!(annotate_added(&mut tree, &danger, &none), (0, 0));
}
