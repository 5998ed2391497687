//! Danger-map verdicts carried into a study: the tags an engine walk puts on
//! a repertoire's dangerous replies (Weapon / Caution / Off-book), the
//! one-line comment quoting a verdict's figures, how a freshly grafted node is
//! annotated from its tag, and the flat digest of tagged nodes.

use vstd::prelude::*;

use crate::text::{copy_str, decimal, digit, digit_char, push_char, push_decimal, push_str};
use crate::tree::{Eval, MoveTree, Node};

verus! {

/// Which classifier verdict flagged a reply (priority Trap > OnlyMove >
/// Attack).
#[derive(PartialEq, Eq, Structural, Debug, Clone, Copy)]
pub enum DangerKind {
    Trap,
    OnlyMove,
    Attack,
    OffBook,
}

/// What the flagged reply means for the repertoire's owner.
#[derive(PartialEq, Eq, Structural, Debug, Clone, Copy)]
pub enum DangerRole {
    Weapon,
    Caution,
    OffBook,
}

/// The trap classifier's verdict on the best reply.
#[derive(PartialEq, Eq, Structural, Debug, Clone, Copy)]
pub enum TrapVerdict {
    /// The trap has bounded downside against the best reply.
    Weapon,
    /// The best reply refutes the bait.
    HopeChess,
}

/// The verdict on one node of a danger walk.
pub struct DangerTag {
    pub kind: DangerKind,
    pub role: DangerRole,
    pub trap: Option<TrapVerdict>,
    /// The centipawn gap between the best and second-best reply.
    pub only_move_gap: Option<i32>,
    /// The share of human players who miss the only move, as a whole
    /// percentage.
    pub miss_pct: Option<u64>,
    /// The engine's evaluation, White's point of view, when searched.
    pub eval: Option<Eval>,
}

/// One node of an engine-walked danger tree.
pub struct DangerNode {
    pub id: usize,
    pub parent: Option<usize>,
    pub san: Option<String>,
    pub fen: String,
    pub ply: usize,
    pub tag: Option<DangerTag>,
    pub children: Vec<usize>,
}

/// An engine-walked danger tree, nodes in walk order.
pub struct DangerTree {
    pub nodes: Vec<DangerNode>,
    pub root: usize,
}

// ---------------------------------------------------------------------------
// Evaluations as a reader sees them
// ---------------------------------------------------------------------------

/// Whether `n` has a negation (every `i32` but the smallest).
pub open spec fn printable_eval(e: Eval) -> bool {
    e matches Eval::Mate(n) ==> n > i32::MIN
}

/// A signed pawn score with two decimals (`+0.30`, `-0.40`), or a mate
/// count (`M3`, `-M2`).
pub open spec fn eval_text(e: Eval) -> Seq<char> {
    match e {
        Eval::Cp(cp) => {
            let a: nat = if cp < 0 {
                (-cp) as nat
            } else {
                cp as nat
            };
            (if cp < 0 {
                seq!['-']
            } else {
                seq!['+']
            }) + decimal(a / 100) + seq!['.', digit_char((a % 100) / 10), digit_char(a % 10)]
        },
        Eval::Mate(n) => if n >= 0 {
            seq!['M'] + decimal(n as nat)
        } else {
            seq!['-', 'M'] + decimal((-n) as nat)
        },
    }
}

/// Formats an evaluation as a reader of `[%eval]` expects.
pub fn format_eval(e: Eval) -> (r: String)
    requires
        printable_eval(e),
    ensures
        r@ == eval_text(e),
{
    let mut r = String::new();
    match e {
        Eval::Cp(cp) => {
            let a: u64 = if cp < 0 {
                (-(cp as i64)) as u64
            } else {
                cp as u64
            };
            if cp < 0 {
                push_char(&mut r, '-');
            } else {
                push_char(&mut r, '+');
            }
            push_decimal(&mut r, a / 100);
            push_char(&mut r, '.');
            push_char(&mut r, digit((a % 100) / 10));
            push_char(&mut r, digit(a % 10));
        },
        Eval::Mate(n) => {
            if n >= 0 {
                push_char(&mut r, 'M');
                push_decimal(&mut r, n as u64);
            } else {
                push_char(&mut r, '-');
                push_char(&mut r, 'M');
                push_decimal(&mut r, (-n) as u64);
            }
        },
    }
    proof {
        assert(r@ =~= eval_text(e));
    }
    r
}

// ---------------------------------------------------------------------------
// The verdict comment
// ---------------------------------------------------------------------------

/// The role's label.
pub open spec fn role_label(r: DangerRole) -> Seq<char> {
    match r {
        DangerRole::Weapon => "Weapon"@,
        DangerRole::Caution => "Caution"@,
        DangerRole::OffBook => "Off-book"@,
    }
}

/// The verdict's detail, chosen by the tag's kind (never by which figures
/// happen to be present).
pub open spec fn verdict_detail(tag: DangerTag) -> Seq<char> {
    match tag.kind {
        DangerKind::Trap => match tag.trap {
            Some(TrapVerdict::Weapon) => "trap, bounded downside on the best reply"@,
            Some(TrapVerdict::HopeChess) => "baited trap, the best reply refutes it"@,
            None => "trap"@,
        },
        DangerKind::OnlyMove => match tag.miss_pct {
            Some(p) => "only move"@ + ", "@ + decimal(p as nat) + "% miss rate"@,
            None => "only move"@,
        },
        DangerKind::Attack => "pawn storm toward your king"@,
        DangerKind::OffBook => "no prepared answer in this repertoire"@,
    }
}

/// `"{role}: {detail}"`, followed by ` ({eval})` when the tag carries an
/// evaluation.
pub open spec fn comment_text(tag: DangerTag) -> Seq<char> {
    let head = role_label(tag.role) + ": "@ + verdict_detail(tag);
    match tag.eval {
        Some(e) => head + " ("@ + eval_text(e) + ")"@,
        None => head,
    }
}

/// Whether every evaluation the tag carries can be printed.
pub open spec fn printable_tag(tag: DangerTag) -> bool {
    tag.eval matches Some(e) ==> printable_eval(e)
}

/// The short comment summarising a verdict with its own figures.
pub fn danger_comment(tag: &DangerTag) -> (r: String)
    requires
        printable_tag(*tag),
    ensures
        r@ == comment_text(*tag),
{
    let mut r = match tag.role {
        DangerRole::Weapon => copy_str("Weapon"),
        DangerRole::Caution => copy_str("Caution"),
        DangerRole::OffBook => copy_str("Off-book"),
    };
    push_str(&mut r, ": ");
    match tag.kind {
        DangerKind::Trap => match tag.trap {
            Some(TrapVerdict::Weapon) => push_str(&mut r, "trap, bounded downside on the best reply"),
            Some(TrapVerdict::HopeChess) => push_str(&mut r, "baited trap, the best reply refutes it"),
            None => push_str(&mut r, "trap"),
        },
        DangerKind::OnlyMove => {
            push_str(&mut r, "only move");
            if let Some(p) = tag.miss_pct {
                push_str(&mut r, ", ");
                push_decimal(&mut r, p);
                push_str(&mut r, "% miss rate");
            }
        },
        DangerKind::Attack => push_str(&mut r, "pawn storm toward your king"),
        DangerKind::OffBook => push_str(&mut r, "no prepared answer in this repertoire"),
    }
    if let Some(e) = tag.eval {
        push_str(&mut r, " (");
        let t = format_eval(e);
        push_str(&mut r, t.as_str());
        push_str(&mut r, ")");
    }
    proof {
        assert(r@ =~= comment_text(*tag));
    }
    r
}

// ---------------------------------------------------------------------------
// Annotating grafted nodes
// ---------------------------------------------------------------------------

/// `$1`, a good move (`!`): pinned on a grafted Weapon.
pub const NAG_GOOD_MOVE: u8 = 1;

/// `$6`, a dubious move (`?!`): pinned on a grafted Caution.
pub const NAG_DUBIOUS_MOVE: u8 = 6;

/// The glyph a role pins, if any.
pub open spec fn role_nag(r: DangerRole) -> Option<u8> {
    match r {
        DangerRole::Weapon => Some(NAG_GOOD_MOVE),
        DangerRole::Caution => Some(NAG_DUBIOUS_MOVE),
        DangerRole::OffBook => None,
    }
}

/// `b` is node `a` annotated from `tag`: the tag's evaluation when it
/// carries one, the verdict comment, and the role's glyph added once; the
/// node's place in the tree, move and shapes unchanged.
pub open spec fn annotated(a: Node, b: Node, tag: DangerTag) -> bool {
    &&& a.id == b.id && a.parent == b.parent && a.children@ == b.children@
    &&& a.san == b.san && a.shapes@ == b.shapes@
    &&& b.eval == match tag.eval {
        Some(e) => Some(e),
        None => a.eval,
    }
    &&& b.comment matches Some(c) && c@ == comment_text(tag)
    &&& b.nags@ == match role_nag(tag.role) {
        Some(n) => if a.nags@.contains(n) {
            a.nags@
        } else {
            a.nags@.push(n)
        },
        None => a.nags@,
    }
}

/// Annotating a grafted node from its danger tag: a Weapon adds the NAG 1
/// (`!`) and a Caution the NAG 6 (`?!`), each at most once, with the other
/// NAGs left as they were; an Off-book node (a missing answer is no verdict
/// on a move) keeps its NAGs exactly. The comment is always set, the
/// evaluation only when the tag carries one.
pub proof fn grafted_glyph_follows_the_verdict(a: Node, b: Node, tag: DangerTag)
    requires
        annotated(a, b, tag),
    ensures
        tag.role is OffBook ==> b.nags@ == a.nags@,
        tag.role is Weapon ==> b.nags@.contains(1u8) && (a.nags@.contains(1u8) ==> b.nags@
            == a.nags@) && (!a.nags@.contains(1u8) ==> b.nags@ == a.nags@.push(1u8)),
        tag.role is Caution ==> b.nags@.contains(6u8) && (a.nags@.contains(6u8) ==> b.nags@
            == a.nags@) && (!a.nags@.contains(6u8) ==> b.nags@ == a.nags@.push(6u8)),
        tag.eval is None ==> b.eval == a.eval,
        tag.eval matches Some(e) ==> b.eval == Some(e),
        b.comment matches Some(c) && c@ == comment_text(tag),
        tag.role is OffBook && tag.kind is OffBook ==> (b.comment matches Some(c) && c@
            == "Off-book: no prepared answer in this repertoire"@ + match tag.eval {
            Some(e) => " ("@ + eval_text(e) + ")"@,
            None => Seq::empty(),
        }),
{
    if tag.role is OffBook && tag.kind is OffBook {
        reveal_strlit("Off-book");
        reveal_strlit(": ");
        reveal_strlit("no prepared answer in this repertoire");
        reveal_strlit("Off-book: no prepared answer in this repertoire");
        assert("Off-book"@ + ": "@ + "no prepared answer in this repertoire"@
            =~= "Off-book: no prepared answer in this repertoire"@);
    }
    if tag.role is Weapon && !a.nags@.contains(1u8) {
        assert(a.nags@.push(1u8)[a.nags@.len() as int] == 1u8);
    }
    if tag.role is Caution && !a.nags@.contains(6u8) {
        assert(a.nags@.push(6u8)[a.nags@.len() as int] == 6u8);
    }
}

/// Annotates a node the graft just created from its tag: the evaluation
/// when searched, the verdict comment, and `!` for a Weapon or `?!` for a
/// Caution (none for Off-book: a missing answer is no verdict on a move).
pub fn annotate_grafted_node(tree: &mut MoveTree, node_id: usize, tag: &DangerTag)
    requires
        old(tree).has(node_id as int),
        printable_tag(*tag),
    ensures
        final(tree).root == old(tree).root,
        final(tree).nodes@.len() == old(tree).nodes@.len(),
        forall|i: int|
            0 <= i < old(tree).nodes@.len() && i != node_id ==> #[trigger] final(tree).nodes@[i]
                == old(tree).nodes@[i],
        annotated(old(tree).nodes@[node_id as int], final(tree).nodes@[node_id as int], *tag),
{
    if let Some(e) = tag.eval {
        tree.set_eval(node_id, e);
    }
    tree.set_comment(node_id, danger_comment(tag));
    match tag.role {
        DangerRole::Weapon => tree.add_nag(node_id, NAG_GOOD_MOVE),
        DangerRole::Caution => tree.add_nag(node_id, NAG_DUBIOUS_MOVE),
        DangerRole::OffBook => {},
    }
}

/// The tag of danger node `i`, when there is such a node and it is tagged.
pub open spec fn tag_at(nodes: Seq<DangerNode>, i: int) -> Option<DangerTag> {
    if 0 <= i < nodes.len() {
        nodes[i].tag
    } else {
        None
    }
}

/// How many of the grafted `(source, destination)` pairs came from a node
/// tagged with `role`.
pub open spec fn role_count(nodes: Seq<DangerNode>, added: Seq<(usize, usize)>, role: DangerRole) -> nat
    decreases added.len(),
{
    if added.len() == 0 {
        0
    } else {
        role_count(nodes, added.drop_last(), role) + if tag_at(nodes, added.last().0 as int) matches Some(
            t,
        ) && t.role == role {
            1nat
        } else {
            0nat
        }
    }
}

/// No study node appears twice among the grafted pairs' destinations (a
/// graft creates each node once).
pub open spec fn distinct_dests(added: Seq<(usize, usize)>) -> bool {
    forall|j: int, k: int|
        0 <= j < added.len() && 0 <= k < added.len() && j != k ==> #[trigger] added[j].1
            != #[trigger] added[k].1
}

/// Node `dst` of `after` is the created node of a grafted pair as the merge
/// leaves it: annotated from its source's tag, or untouched when the source
/// carries none.
pub open spec fn created_as_annotated(
    nodes: Seq<DangerNode>,
    before: MoveTree,
    after: MoveTree,
    pair: (usize, usize),
) -> bool {
    match tag_at(nodes, pair.0 as int) {
        Some(t) => annotated(before.nodes@[pair.1 as int], after.nodes@[pair.1 as int], t),
        None => after.nodes@[pair.1 as int] == before.nodes@[pair.1 as int],
    }
}

/// Each grafted pair counts towards at most one role.
pub proof fn role_counts_bounded(nodes: Seq<DangerNode>, added: Seq<(usize, usize)>)
    ensures
        role_count(nodes, added, DangerRole::Weapon) + role_count(nodes, added, DangerRole::Caution)
            <= added.len(),
    decreases added.len(),
{
    if added.len() > 0 {
        role_counts_bounded(nodes, added.drop_last());
    }
}

/// What grafting a danger tree into a study added.
pub struct MergeDangerOutcome<S> {
    /// The refreshed study.
    pub study: S,
    /// Nodes the graft created (a node it only followed is not counted).
    pub added_nodes: usize,
    /// Of the added nodes, those carrying a Weapon verdict.
    pub weapons: usize,
    /// Of the added nodes, those carrying a Caution verdict.
    pub cautions: usize,
}

/// Whether every evaluation a danger tree carries can be printed.
pub open spec fn printable_tree(danger: DangerTree) -> bool {
    forall|i: int|
        0 <= i < danger.nodes@.len() ==> ((#[trigger] danger.nodes@[i]).tag matches Some(t)
            ==> printable_tag(t))
}

/// After a graft created the nodes `added` (pairs of danger-tree source id
/// and study destination id), annotates each from its source's tag and
/// counts the Weapons and Cautions among them. Nodes the graft did not
/// create are never touched.
pub fn annotate_added(tree: &mut MoveTree, danger: &DangerTree, added: &Vec<(usize, usize)>) -> (r: (
    usize,
    usize,
))
    requires
        forall|k: int| 0 <= k < added@.len() ==> old(tree).has(#[trigger] added@[k].1 as int),
        printable_tree(*danger),
    ensures
        r.0 == role_count(danger.nodes@, added@, DangerRole::Weapon),
        r.1 == role_count(danger.nodes@, added@, DangerRole::Caution),
        final(tree).root == old(tree).root,
        final(tree).nodes@.len() == old(tree).nodes@.len(),
        forall|i: int|
            0 <= i < old(tree).nodes@.len() && !(exists|k: int|
                0 <= k < added@.len() && #[trigger] added@[k].1 == i) ==> final(tree).nodes@[i]
                == old(tree).nodes@[i],
        distinct_dests(added@) ==> forall|k: int|
            0 <= k < added@.len() ==> #[trigger] created_as_annotated(
                danger.nodes@,
                *old(tree),
                *final(tree),
                added@[k],
            ),
{
    let mut weapons: usize = 0;
    let mut cautions: usize = 0;
    let mut k: usize = 0;
    while k < added.len()
        invariant
            k <= added@.len(),
            tree.root == old(tree).root,
            tree.nodes@.len() == old(tree).nodes@.len(),
            forall|j: int| 0 <= j < added@.len() ==> tree.has(#[trigger] added@[j].1 as int),
            printable_tree(*danger),
            weapons == role_count(danger.nodes@, added@.take(k as int), DangerRole::Weapon),
            cautions == role_count(danger.nodes@, added@.take(k as int), DangerRole::Caution),
            weapons <= k,
            cautions <= k,
            forall|i: int|
                0 <= i < old(tree).nodes@.len() && !(exists|j: int|
                    0 <= j < k && #[trigger] added@[j].1 == i) ==> tree.nodes@[i] == old(
                    tree,
                ).nodes@[i],
            distinct_dests(added@) ==> forall|j: int|
                0 <= j < k ==> #[trigger] created_as_annotated(
                    danger.nodes@,
                    *old(tree),
                    *tree,
                    added@[j],
                ),
        decreases added.len() - k,
    {
        let ghost before = *tree;
        let (src, dst) = added[k];
        proof {
            assert(added@.take(k + 1).drop_last() =~= added@.take(k as int));
            assert(added@.take(k + 1).last() == added@[k as int]);
            assert(tree.has(added@[k as int].1 as int));
        }
        if src < danger.nodes.len() {
            if let Some(tag) = &danger.nodes[src].tag {
                proof {
                    assert(printable_tag(danger.nodes@[src as int].tag->0));
                }
                annotate_grafted_node(tree, dst, tag);
                match tag.role {
                    DangerRole::Weapon => weapons = weapons + 1,
                    DangerRole::Caution => cautions = cautions + 1,
                    DangerRole::OffBook => {},
                }
            }
        }
        proof {
            if distinct_dests(added@) {
                let d = added@[k as int].1 as int;
                assert(!(exists|j: int| 0 <= j < k && #[trigger] added@[j].1 == d)) by {
                    if exists|j: int| 0 <= j < k && #[trigger] added@[j].1 == d {
                        let j = choose|j: int| 0 <= j < k && #[trigger] added@[j].1 == d;
                        assert(added@[j].1 != added@[k as int].1);
                    }
                }
                assert(before.nodes@[d] == old(tree).nodes@[d]);
                assert forall|j: int| 0 <= j < k + 1 implies #[trigger] created_as_annotated(
                    danger.nodes@,
                    *old(tree),
                    *tree,
                    added@[j],
                ) by {
                    if j < k {
                        assert(added@[j].1 != added@[k as int].1);
                        assert(created_as_annotated(danger.nodes@, *old(tree), before, added@[j]));
                        assert(tree.nodes@[added@[j].1 as int] == before.nodes@[added@[j].1 as int]);
                    }
                }
            }
            assert forall|i: int|
                0 <= i < old(tree).nodes@.len() && !(exists|j: int|
                    0 <= j < k + 1 && #[trigger] added@[j].1 == i) implies tree.nodes@[i] == old(
                tree,
            ).nodes@[i] by {
                assert(added@[k as int].1 != i);
                assert(!(exists|j: int| 0 <= j < k && #[trigger] added@[j].1 == i)) by {
                    if exists|j: int| 0 <= j < k && #[trigger] added@[j].1 == i {
                        let j = choose|j: int| 0 <= j < k && #[trigger] added@[j].1 == i;
                        assert(0 <= j < k + 1 && added@[j].1 == i);
                    }
                }
            }
        }
        k = k + 1;
    }
    proof {
        assert(added@.take(added@.len() as int) =~= added@);
    }
    (weapons, cautions)
}

/// A graft that adds nothing (a re-merge of lines already present)
/// reports no Weapon and no Caution.
pub proof fn nothing_grafted_nothing_counted(nodes: Seq<DangerNode>, added: Seq<(usize, usize)>)
    requires
        added.len() == 0,
    ensures
        role_count(nodes, added, DangerRole::Weapon) == 0,
        role_count(nodes, added, DangerRole::Caution) == 0,
{
}

/// The counted outcome of a graft, around the refreshed study: the nodes
/// the graft created (`added`) and the Weapons and Cautions among them, as
/// [`annotate_added`] counted them.
pub fn merge_outcome<S>(
    study: S,
    danger: &DangerTree,
    added: &Vec<(usize, usize)>,
    counts: (usize, usize),
) -> (r: MergeDangerOutcome<S>)
    requires
        counts.0 == role_count(danger.nodes@, added@, DangerRole::Weapon),
        counts.1 == role_count(danger.nodes@, added@, DangerRole::Caution),
    ensures
        r.study == study,
        r.added_nodes == added@.len(),
        r.weapons == role_count(danger.nodes@, added@, DangerRole::Weapon),
        r.cautions == role_count(danger.nodes@, added@, DangerRole::Caution),
        r.weapons + r.cautions <= r.added_nodes,
{
    proof {
        role_counts_bounded(danger.nodes@, added@);
    }
    MergeDangerOutcome { study, added_nodes: added.len(), weapons: counts.0, cautions: counts.1 }
}

// ---------------------------------------------------------------------------
// The digest of tagged nodes
// ---------------------------------------------------------------------------

/// The kind's name as the digest spells it.
pub open spec fn kind_name(k: DangerKind) -> Seq<char> {
    match k {
        DangerKind::Trap => "Trap"@,
        DangerKind::OnlyMove => "OnlyMove"@,
        DangerKind::Attack => "Attack"@,
        DangerKind::OffBook => "OffBook"@,
    }
}

/// The role's name as the digest spells it.
pub open spec fn role_name(r: DangerRole) -> Seq<char> {
    match r {
        DangerRole::Weapon => "Weapon"@,
        DangerRole::Caution => "Caution"@,
        DangerRole::OffBook => "OffBook"@,
    }
}

/// One tagged node of a danger walk, flattened.
pub struct RoleDigest {
    pub node_id: usize,
    pub san: Option<String>,
    pub kind: String,
    pub role: String,
}

/// A digest entry's plain view.
pub open spec fn digest_view(d: RoleDigest) -> (usize, Option<Seq<char>>, Seq<char>, Seq<char>) {
    (
        d.node_id,
        match d.san {
            Some(s) => Some(s@),
            None => None,
        },
        d.kind@,
        d.role@,
    )
}

/// The digest of `nodes`: each tagged node, in walk order, by id, move,
/// kind and role.
pub open spec fn digest_of(nodes: Seq<DangerNode>) -> Seq<(usize, Option<Seq<char>>, Seq<char>, Seq<char>)>
    decreases nodes.len(),
{
    if nodes.len() == 0 {
        Seq::empty()
    } else {
        let rest = digest_of(nodes.drop_last());
        let n = nodes.last();
        match n.tag {
            Some(t) => rest.push(
                (
                    n.id,
                    match n.san {
                        Some(s) => Some(s@),
                        None => None,
                    },
                    kind_name(t.kind),
                    role_name(t.role),
                ),
            ),
            None => rest,
        }
    }
}

fn kind_string(k: DangerKind) -> (r: String)
    ensures
        r@ == kind_name(k),
{
    match k {
        DangerKind::Trap => copy_str("Trap"),
        DangerKind::OnlyMove => copy_str("OnlyMove"),
        DangerKind::Attack => copy_str("Attack"),
        DangerKind::OffBook => copy_str("OffBook"),
    }
}

fn role_string(r: DangerRole) -> (s: String)
    ensures
        s@ == role_name(r),
{
    match r {
        DangerRole::Weapon => copy_str("Weapon"),
        DangerRole::Caution => copy_str("Caution"),
        DangerRole::OffBook => copy_str("OffBook"),
    }
}

/// The flat digest of a danger walk's tagged nodes, in walk order (the tags
/// are also carried per node in the tree itself).
pub fn roles_digest(tree: &DangerTree) -> (r: Vec<RoleDigest>)
    ensures
        r@.len() == digest_of(tree.nodes@).len(),
        forall|i: int| 0 <= i < r@.len() ==> digest_view(#[trigger] r@[i]) == digest_of(tree.nodes@)[i],
{
    let mut out: Vec<RoleDigest> = Vec::new();
    let mut i: usize = 0;
    while i < tree.nodes.len()
        invariant
            i <= tree.nodes@.len(),
            out@.len() == digest_of(tree.nodes@.take(i as int)).len(),
            forall|j: int|
                0 <= j < out@.len() ==> digest_view(#[trigger] out@[j]) == digest_of(
                    tree.nodes@.take(i as int),
                )[j],
        decreases tree.nodes.len() - i,
    {
        let n = &tree.nodes[i];
        proof {
            assert(tree.nodes@.take(i + 1).drop_last() =~= tree.nodes@.take(i as int));
            assert(tree.nodes@.take(i + 1).last() == tree.nodes@[i as int]);
        }
        if let Some(t) = &n.tag {
            let san = match &n.san {
                Some(s) => Some(copy_str(s.as_str())),
                None => None,
            };
            out.push(
                RoleDigest {
                    node_id: n.id,
                    san,
                    kind: kind_string(t.kind),
                    role: role_string(t.role),
                },
            );
        }
        i = i + 1;
    }
    proof {
        assert(tree.nodes@.take(tree.nodes@.len() as int) =~= tree.nodes@);
    }
    out
}

} // verus!
