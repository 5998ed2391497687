//! Engine results as the study-analysis pass reads them: scores, a searched
//! line, the mover's evaluation after a move, and the figures a node's
//! classification is computed from.

use vstd::prelude::*;

use crate::study::{san_core, san_core_of};
use crate::text::{copy_str, str_eq, views};
use crate::tree::Eval;
use crate::tree::{line_of, line_of_more_fuel, line_to_spec, MoveTree};

verus! {

/// An engine score from the side to move's point of view.
#[derive(PartialEq, Eq, Structural, Debug, Clone, Copy)]
pub enum Score {
    /// Centipawns.
    Cp { value: i32 },
    /// Mate in `value` moves (negative: being mated).
    Mate { value: i32 },
}

/// Whether the score's value can be negated (every `i32` but the smallest).
pub open spec fn negatable(s: Score) -> bool {
    match s {
        Score::Cp { value } => value > i32::MIN,
        Score::Mate { value } => value > i32::MIN,
    }
}

/// The same score seen from the other side.
pub open spec fn negated(s: Score) -> Score {
    match s {
        Score::Cp { value } => Score::Cp { value: (-value) as i32 },
        Score::Mate { value } => Score::Mate { value: (-value) as i32 },
    }
}

impl Score {
    /// The same score seen from the other side.
    pub fn negate(self) -> (r: Score)
        requires
            negatable(self),
        ensures
            r == negated(self),
    {
        match self {
            Score::Cp { value } => Score::Cp { value: -value },
            Score::Mate { value } => Score::Mate { value: -value },
        }
    }
}

/// One searched engine line.
pub struct Analysis {
    /// The engine's chosen move (UCI), `(none)` or empty when it has none.
    pub bestmove: String,
    pub score: Option<Score>,
    /// The principal variation, UCI moves.
    pub pv: Vec<String>,
}

/// The engine's chosen move for a line, in UCI: the first move of its
/// principal variation, else its `bestmove` unless that is empty or
/// `(none)`.
pub open spec fn chosen_move(line: Option<Analysis>) -> Option<Seq<char>> {
    match line {
        None => None,
        Some(a) => if a.pv@.len() > 0 {
            Some(a.pv@[0]@)
        } else if a.bestmove@.len() > 0 && a.bestmove@ != "(none)"@ {
            Some(a.bestmove@)
        } else {
            None
        },
    }
}

/// The engine's chosen move for a line (see `chosen_move`).
pub fn first_uci(line: Option<&Analysis>) -> (r: Option<String>)
    ensures
        match r {
            Some(m) => chosen_move(
                match line {
                    Some(a) => Some(*a),
                    None => None,
                },
            ) == Some(m@),
            None => chosen_move(
                match line {
                    Some(a) => Some(*a),
                    None => None,
                },
            ) is None,
        },
{
    match line {
        None => None,
        Some(a) => if a.pv.len() > 0 {
            Some(copy_str(a.pv[0].as_str()))
        } else if !a.bestmove.as_str().is_empty() && !str_eq(a.bestmove.as_str(), "(none)") {
            Some(copy_str(a.bestmove.as_str()))
        } else {
            None
        },
    }
}

/// What the board itself says of a position: whether the side to move is
/// mated or stalemated, and whether neither side can mate.
#[derive(PartialEq, Eq, Structural, Debug, Clone, Copy)]
pub struct BoardFeatures {
    pub checkmate: bool,
    pub stalemate: bool,
    pub insufficient_material: bool,
}

/// The mover's evaluation after a move: a delivered mate is a win (mate in
/// one), stalemate or insufficient material a draw; otherwise the searched
/// score of the side now to move, negated to the mover's view, or a draw
/// when the position was not searched. `features` is `None` when the
/// position could not be read.
pub open spec fn mover_eval(features: Option<BoardFeatures>, opponent_score: Option<Score>) -> Score {
    if features matches Some(f) && f.checkmate {
        Score::Mate { value: 1 }
    } else if features matches Some(f) && (f.stalemate || f.insufficient_material) {
        Score::Cp { value: 0 }
    } else {
        match opponent_score {
            Some(s) => negated(s),
            None => Score::Cp { value: 0 },
        }
    }
}

/// Whether the board alone settles the position: mate, stalemate or
/// insufficient material.
pub open spec fn settled(features: Option<BoardFeatures>) -> bool {
    features matches Some(f) && (f.checkmate || f.stalemate || f.insufficient_material)
}

/// The mover's evaluation after a move (see `mover_eval`). The searched
/// score is negated only when the board does not settle the position.
pub fn after_eval(features: Option<BoardFeatures>, opponent_score: Option<Score>) -> (r: Score)
    requires
        !settled(features) ==> (opponent_score matches Some(s) ==> negatable(s)),
    ensures
        r == mover_eval(features, opponent_score),
{
    if let Some(f) = features {
        if f.checkmate {
            return Score::Mate { value: 1 };
        }
        if f.stalemate || f.insufficient_material {
            return Score::Cp { value: 0 };
        }
    }
    match opponent_score {
        Some(s) => s.negate(),
        None => Score::Cp { value: 0 },
    }
}

/// One move-bearing node with the positions before and after its move.
pub struct NodeSearch {
    pub node_id: usize,
    pub fen_before: String,
    pub fen_after: String,
    pub san: String,
    /// Whether White played the move.
    pub mover_white: bool,
}

/// The figures a node's classification is computed from.
pub struct SearchFigures {
    /// The best score before the move (a draw when nothing was searched).
    pub best_before: Score,
    /// The second-best line's score, if searched.
    pub second_best: Option<Score>,
    /// Whether the played move is the engine's top choice.
    pub played_is_best: bool,
    /// The mover's evaluation after the move.
    pub after_played: Score,
}

/// The figures of one node (see [`search_figures`]) from the lines searched
/// before the move, the played move in UCI, the board after it and the top
/// score searched there.
pub open spec fn figures_of(
    before: Seq<Analysis>,
    played: Option<Seq<char>>,
    features: Option<BoardFeatures>,
    after_top: Option<Score>,
) -> SearchFigures {
    SearchFigures {
        best_before: if before.len() > 0 && before[0].score is Some {
            before[0].score->0
        } else {
            Score::Cp { value: 0 }
        },
        second_best: if before.len() > 1 {
            before[1].score
        } else {
            None
        },
        played_is_best: played is Some && chosen_move(
            if before.len() > 0 {
                Some(before[0])
            } else {
                None
            },
        ) == Some(played->0),
        after_played: mover_eval(features, after_top),
    }
}

/// The figures for one node: `before` holds the lines searched before the
/// move, best first; `played_uci` the played move in UCI when it converts;
/// `features` and `after_top` describe the position after the move.
pub fn search_figures(
    before: &Vec<Analysis>,
    played_uci: Option<&str>,
    features: Option<BoardFeatures>,
    after_top: Option<Score>,
) -> (r: SearchFigures)
    requires
        !settled(features) ==> (after_top matches Some(s) ==> negatable(s)),
    ensures
        r.best_before == (if before@.len() > 0 && before@[0].score is Some {
            before@[0].score->0
        } else {
            Score::Cp { value: 0 }
        }),
        r.second_best == (if before@.len() > 1 {
            before@[1].score
        } else {
            None
        }),
        r.played_is_best == (played_uci is Some && chosen_move(
            if before@.len() > 0 {
                Some(before@[0])
            } else {
                None
            },
        ) == Some(played_uci->0@)),
        r.after_played == mover_eval(features, after_top),
{
    let best_before = if before.len() > 0 {
        match before[0].score {
            Some(s) => s,
            None => Score::Cp { value: 0 },
        }
    } else {
        Score::Cp { value: 0 }
    };
    let best_uci = if before.len() > 0 {
        first_uci(Some(&before[0]))
    } else {
        first_uci(None)
    };
    let second_best = if before.len() > 1 {
        before[1].score
    } else {
        None
    };
    let played_is_best = match (played_uci, &best_uci) {
        (Some(p), Some(b)) => str_eq(p, b.as_str()),
        _ => false,
    };
    let after_played = after_eval(features, after_top);
    SearchFigures { best_before, second_best, played_is_best, after_played }
}

/// The nodes a study-analysis pass searches, in node order: those carrying
/// a move whose line from the root can be read.
pub open spec fn searched_nodes(tree: MoveTree, upto: int) -> Seq<int>
    decreases upto,
{
    if upto <= 0 {
        Seq::empty()
    } else {
        let rest = searched_nodes(tree, upto - 1);
        let i = upto - 1;
        if i < tree.nodes@.len() && tree.nodes@[i].san is Some && line_to_spec(tree, i) is Some {
            rest.push(i)
        } else {
            rest
        }
    }
}

/// The position after the last replayed ply (the start when none).
pub open spec fn fen_after_plies(plies: Seq<String>, start: Seq<char>) -> Seq<char> {
    if plies.len() >= 1 {
        plies.last()@
    } else {
        start
    }
}

/// The position before the last replayed ply (the start when fewer than
/// two).
pub open spec fn fen_before_plies(plies: Seq<String>, start: Seq<char>) -> Seq<char> {
    if plies.len() >= 2 {
        plies[plies.len() - 2]@
    } else {
        start
    }
}

/// `s` is node `id`'s search: its move, and the positions before and after
/// it as `replay` gives them for the node's line from `start`, with the
/// mover read off the position before by `black_to_move`.
pub open spec fn is_node_search<R, B, E>(
    tree: MoveTree,
    start: Seq<char>,
    replay: R,
    black_to_move: B,
    id: int,
    s: NodeSearch,
) -> bool where R: Fn(Vec<String>) -> Result<Vec<String>, E>, B: Fn(String) -> Result<bool, E> {
    &&& s.node_id == id
    &&& tree.nodes@[id].san matches Some(m) && s.san@ == m@
    &&& exists|line: Vec<String>, plies: Vec<String>, fen: String, black: bool|
        #![trigger call_ensures(replay, (line,), Ok::<Vec<String>, E>(plies)), call_ensures(black_to_move, (fen,), Ok::<bool, E>(black))]
        {
            &&& line_to_spec(tree, id) == Some(views(line@))
            &&& call_ensures(replay, (line,), Ok::<Vec<String>, E>(plies))
            &&& s.fen_after@ == fen_after_plies(plies@, start)
            &&& s.fen_before@ == fen_before_plies(plies@, start)
            &&& fen@ == s.fen_before@
            &&& call_ensures(black_to_move, (fen,), Ok::<bool, E>(black))
            &&& s.mover_white == !black
        }
}

/// Replaying node `id`'s line, or reading the mover off the position before
/// its move, fails with `e`.
pub open spec fn search_fails<R, B, E>(
    tree: MoveTree,
    start: Seq<char>,
    replay: R,
    black_to_move: B,
    id: int,
    e: E,
) -> bool where R: Fn(Vec<String>) -> Result<Vec<String>, E>, B: Fn(String) -> Result<bool, E> {
    exists|line: Vec<String>|
        #![trigger views(line@)]
        {
            &&& line_to_spec(tree, id) == Some(views(line@))
            &&& {
                ||| call_ensures(replay, (line,), Err::<Vec<String>, E>(e))
                ||| exists|plies: Vec<String>, fen: String|
                    #![trigger call_ensures(replay, (line,), Ok::<Vec<String>, E>(plies)), call_ensures(black_to_move, (fen,), Err::<bool, E>(e))]
                    {
                        &&& call_ensures(replay, (line,), Ok::<Vec<String>, E>(plies))
                        &&& fen@ == fen_before_plies(plies@, start)
                        &&& call_ensures(black_to_move, (fen,), Err::<bool, E>(e))
                    }
            }
        }
}

/// Some move-bearing node's search fails with `e`.
pub open spec fn some_search_fails<R, B, E>(
    tree: MoveTree,
    start: Seq<char>,
    replay: R,
    black_to_move: B,
    e: E,
) -> bool where R: Fn(Vec<String>) -> Result<Vec<String>, E>, B: Fn(String) -> Result<bool, E> {
    exists|id: int|
        0 <= id < tree.nodes@.len() && tree.nodes@[id].san is Some && #[trigger] search_fails(
            tree,
            start,
            replay,
            black_to_move,
            id,
            e,
        )
}

/// Node `id`'s search cannot fail when its line is `l`: if it carries a move
/// and `l` is its line, every replay of `l` succeeds, and so does reading
/// the mover off the position before the move.
pub open spec fn node_search_succeeds<R, B, E>(
    tree: MoveTree,
    start: Seq<char>,
    replay: R,
    black_to_move: B,
    id: int,
    l: Vec<String>,
) -> bool where R: Fn(Vec<String>) -> Result<Vec<String>, E>, B: Fn(String) -> Result<bool, E> {
    0 <= id < tree.nodes@.len() && tree.nodes@[id].san is Some && line_to_spec(tree, id) == Some(
        views(l@),
    ) ==> {
        &&& forall|res: Result<Vec<String>, E>|
            #[trigger] call_ensures(replay, (l,), res) ==> res is Ok
        &&& forall|p: Vec<String>, f: String, b: Result<bool, E>|
            #![trigger call_ensures(replay, (l,), Ok::<Vec<String>, E>(p)), call_ensures(black_to_move, (f,), b)]
            call_ensures(replay, (l,), Ok::<Vec<String>, E>(p)) && f@ == fen_before_plies(p@, start)
                && call_ensures(black_to_move, (f,), b) ==> b is Ok
    }
}

/// Every move-bearing node's line replays, and the mover can be read off
/// each position before a move.
pub open spec fn searches_succeed<R, B, E>(
    tree: MoveTree,
    start: Seq<char>,
    replay: R,
    black_to_move: B,
) -> bool where R: Fn(Vec<String>) -> Result<Vec<String>, E>, B: Fn(String) -> Result<bool, E> {
    forall|id: int, l: Vec<String>|
        #[trigger] node_search_succeeds(tree, start, replay, black_to_move, id, l)
}

/// A search that fails somewhere is not one that succeeds everywhere.
proof fn failure_excludes_success<R, B, E>(
    tree: MoveTree,
    start: Seq<char>,
    replay: R,
    black_to_move: B,
    e: E,
) where R: Fn(Vec<String>) -> Result<Vec<String>, E>, B: Fn(String) -> Result<bool, E>
    requires
        some_search_fails(tree, start, replay, black_to_move, e),
    ensures
        !searches_succeed(tree, start, replay, black_to_move),
{
    let id = choose|id: int|
        0 <= id < tree.nodes@.len() && tree.nodes@[id].san is Some && #[trigger] search_fails(
            tree,
            start,
            replay,
            black_to_move,
            id,
            e,
        );
    let line = choose|line: Vec<String>|
        #![trigger views(line@)]
        {
            &&& line_to_spec(tree, id) == Some(views(line@))
            &&& {
                ||| call_ensures(replay, (line,), Err::<Vec<String>, E>(e))
                ||| exists|plies: Vec<String>, fen: String|
                    #![trigger call_ensures(replay, (line,), Ok::<Vec<String>, E>(plies)), call_ensures(black_to_move, (fen,), Err::<bool, E>(e))]
                    {
                        &&& call_ensures(replay, (line,), Ok::<Vec<String>, E>(plies))
                        &&& fen@ == fen_before_plies(plies@, start)
                        &&& call_ensures(black_to_move, (fen,), Err::<bool, E>(e))
                    }
            }
        };
    if searches_succeed(tree, start, replay, black_to_move) {
        assert(node_search_succeeds(tree, start, replay, black_to_move, id, line));
        if !call_ensures(replay, (line,), Err::<Vec<String>, E>(e)) {
            let (plies, fen) = choose|plies: Vec<String>, fen: String|
                {
                    &&& call_ensures(replay, (line,), Ok::<Vec<String>, E>(plies))
                    &&& fen@ == fen_before_plies(plies@, start)
                    &&& call_ensures(black_to_move, (fen,), Err::<bool, E>(e))
                };
            assert(call_ensures(black_to_move, (fen,), Err::<bool, E>(e)));
        }
    }
}

/// Neither `replay` nor `black_to_move` ever fails.
pub open spec fn never_fails<R, B, E>(replay: R, black_to_move: B) -> bool where
    R: Fn(Vec<String>) -> Result<Vec<String>, E>,
    B: Fn(String) -> Result<bool, E>,
 {
    &&& forall|l: Vec<String>, res: Result<Vec<String>, E>|
        #[trigger] call_ensures(replay, (l,), res) ==> res is Ok
    &&& forall|f: String, res: Result<bool, E>|
        #[trigger] call_ensures(black_to_move, (f,), res) ==> res is Ok
}

fn clone_strings(v: &Vec<String>) -> (r: Vec<String>)
    ensures
        r@ == v@,
{
    let mut r: Vec<String> = Vec::new();
    let mut i: usize = 0;
    while i < v.len()
        invariant
            i <= v@.len(),
            r@ == v@.take(i as int),
        decreases v.len() - i,
    {
        r.push(v[i].clone());
        proof {
            assert(v@.take(i + 1) =~= v@.take(i as int).push(v@[i as int]));
        }
        i = i + 1;
    }
    proof {
        assert(v@.take(v@.len() as int) =~= v@);
    }
    r
}

/// Every move-bearing node with the positions immediately before and after
/// its move, replaying each node's line from `start` with `replay` (the
/// positions after each ply) and reading the mover off the position before
/// with `black_to_move`. The first failure of either is returned.
pub fn node_searches<R, B, E>(tree: &MoveTree, start: &str, replay: R, black_to_move: B) -> (r: Result<
    Vec<NodeSearch>,
    E,
>) where R: Fn(Vec<String>) -> Result<Vec<String>, E>, B: Fn(String) -> Result<bool, E>
    requires
        forall|l: Vec<String>| #[trigger] call_requires(replay, (l,)),
        forall|f: String| #[trigger] call_requires(black_to_move, (f,)),
    ensures
        r matches Ok(out) ==> ({
            let ids = searched_nodes(*tree, tree.nodes@.len() as int);
            &&& out@.len() == ids.len()
            &&& forall|k: int|
                0 <= k < ids.len() ==> is_node_search(
                    *tree,
                    start@,
                    replay,
                    black_to_move,
                    ids[k],
                    #[trigger] out@[k],
                )
        }),
        r matches Err(e) ==> some_search_fails(*tree, start@, replay, black_to_move, e),
        never_fails::<R, B, E>(replay, black_to_move) ==> r is Ok,
        searches_succeed(*tree, start@, replay, black_to_move) ==> r is Ok,
{
    let mut out: Vec<NodeSearch> = Vec::new();
    let mut i: usize = 0;
    while i < tree.nodes.len()
        invariant
            i <= tree.nodes@.len(),
            forall|l: Vec<String>| #[trigger] call_requires(replay, (l,)),
            forall|f: String| #[trigger] call_requires(black_to_move, (f,)),
            out@.len() == searched_nodes(*tree, i as int).len(),
            forall|k: int|
                0 <= k < out@.len() ==> is_node_search(
                    *tree,
                    start@,
                    replay,
                    black_to_move,
                    searched_nodes(*tree, i as int)[k],
                    #[trigger] out@[k],
                ),
        decreases tree.nodes.len() - i,
    {
        let node = &tree.nodes[i];
        let san = match &node.san {
            Some(s) => s,
            None => {
                i = i + 1;
                continue;
            },
        };
        let line = match tree.line_to(i) {
            Some(l) => l,
            None => {
                i = i + 1;
                continue;
            },
        };
        let ghost line_copy = line;
        let plies = match replay(line) {
            Ok(p) => p,
            Err(e) => {
                proof {
                    assert(line_to_spec(*tree, i as int) == Some(views(line_copy@)));
                    assert(search_fails(*tree, start@, replay, black_to_move, i as int, e));
                    assert(0 <= i < tree.nodes@.len() && tree.nodes@[i as int].san is Some);
                    assert(some_search_fails(*tree, start@, replay, black_to_move, e));
                    failure_excludes_success(*tree, start@, replay, black_to_move, e);
                }
                return Err(e);
            },
        };
        let fen_after = if plies.len() >= 1 {
            copy_str(plies[plies.len() - 1].as_str())
        } else {
            copy_str(start)
        };
        let fen_before = if plies.len() >= 2 {
            copy_str(plies[plies.len() - 2].as_str())
        } else {
            copy_str(start)
        };
        let probe = copy_str(fen_before.as_str());
        let ghost probe_copy = probe;
        let black = match black_to_move(probe) {
            Ok(b) => b,
            Err(e) => {
                proof {
                    assert(line_to_spec(*tree, i as int) == Some(views(line_copy@)));
                    assert(call_ensures(replay, (line_copy,), Ok::<Vec<String>, E>(plies)));
                    assert(probe_copy@ == fen_before_plies(plies@, start@));
                    assert(search_fails(*tree, start@, replay, black_to_move, i as int, e));
                    assert(0 <= i < tree.nodes@.len() && tree.nodes@[i as int].san is Some);
                    assert(some_search_fails(*tree, start@, replay, black_to_move, e));
                    failure_excludes_success(*tree, start@, replay, black_to_move, e);
                }
                return Err(e);
            },
        };
        let s = NodeSearch {
            node_id: i,
            fen_before,
            fen_after,
            san: copy_str(san.as_str()),
            mover_white: !black,
        };
        proof {
            assert(is_node_search(*tree, start@, replay, black_to_move, i as int, s)) by {
                assert(line_to_spec(*tree, i as int) == Some(views(line_copy@)));
                assert(call_ensures(replay, (line_copy,), Ok::<Vec<String>, E>(plies)));
                assert(call_ensures(black_to_move, (probe_copy,), Ok::<bool, E>(black)));
            }
        }
        out.push(s);
        i = i + 1;
    }
    Ok(out)
}

/// `replay` gives one position per move, and replaying a line one move
/// longer only adds the position after that move.
pub open spec fn replay_follows_moves<R, E>(replay: R) -> bool where
    R: Fn(Vec<String>) -> Result<Vec<String>, E>,
 {
    &&& forall|l: Vec<String>, p: Vec<String>|
        #[trigger] call_ensures(replay, (l,), Ok::<Vec<String>, E>(p)) ==> p@.len() == l@.len()
    &&& forall|l: Vec<String>, p: Vec<String>, l2: Vec<String>, p2: Vec<String>|
        #![trigger call_ensures(replay, (l,), Ok::<Vec<String>, E>(p)), call_ensures(replay, (l2,), Ok::<Vec<String>, E>(p2))]
        call_ensures(replay, (l,), Ok::<Vec<String>, E>(p)) && call_ensures(
            replay,
            (l2,),
            Ok::<Vec<String>, E>(p2),
        ) && l2@.len() == l@.len() + 1 && views(l2@).drop_last() == views(l@) ==> views(
            p2@,
        ).drop_last() == views(p@)
}

/// Where `replay` follows the moves, a searched node's position before its
/// move is its parent's position after the parent's move, and the start
/// position for a move played from the root.
pub proof fn searches_chain_positions<R, B, E>(
    tree: MoveTree,
    start: Seq<char>,
    replay: R,
    black_to_move: B,
    s: NodeSearch,
    q: NodeSearch,
) where R: Fn(Vec<String>) -> Result<Vec<String>, E>, B: Fn(String) -> Result<bool, E>
    requires
        replay_follows_moves::<R, E>(replay),
        is_node_search(tree, start, replay, black_to_move, s.node_id as int, s),
        tree.nodes@[s.node_id as int].parent matches Some(p) && (p == q.node_id
            && is_node_search(tree, start, replay, black_to_move, q.node_id as int, q) || (0 <= p
            < tree.nodes@.len() && tree.nodes@[p as int].parent is None)),
    ensures
        tree.nodes@[s.node_id as int].parent == Some(q.node_id) && is_node_search(
            tree,
            start,
            replay,
            black_to_move,
            q.node_id as int,
            q,
        ) ==> s.fen_before@ == q.fen_after@,
        (tree.nodes@[s.node_id as int].parent matches Some(p) && 0 <= p < tree.nodes@.len()
            && tree.nodes@[p as int].parent is None) ==> s.fen_before@ == start,
{
    let n = tree.nodes@.len();
    let id = s.node_id as int;
    let (ls, ps, fs, bs) = choose|line: Vec<String>, plies: Vec<String>, fen: String, black: bool|
        {
            &&& line_to_spec(tree, id) == Some(views(line@))
            &&& call_ensures(replay, (line,), Ok::<Vec<String>, E>(plies))
            &&& s.fen_after@ == fen_after_plies(plies@, start)
            &&& s.fen_before@ == fen_before_plies(plies@, start)
            &&& fen@ == s.fen_before@
            &&& call_ensures(black_to_move, (fen,), Ok::<bool, E>(black))
            &&& s.mover_white == !black
        };
    let p = tree.nodes@[id].parent->0 as int;
    let san = tree.nodes@[id].san->0;
    assert(n > 0);
    let lp = line_of(tree.nodes@, p, (n - 1) as nat)->0;
    assert(line_of(tree.nodes@, p, (n - 1) as nat) is Some);
    assert(views(ls@) == lp.push(san@));
    line_of_more_fuel(tree.nodes@, p, (n - 1) as nat, n as nat);
    assert(ps@.len() == ls@.len());
    if 0 <= p < n && tree.nodes@[p].parent is None {
        assert(lp == Seq::<Seq<char>>::empty());
        assert(views(ls@).len() == 1);
        assert(ps@.len() == 1);
    }
    if tree.nodes@[id].parent == Some(q.node_id) && is_node_search(
        tree,
        start,
        replay,
        black_to_move,
        q.node_id as int,
        q,
    ) {
        let qid = q.node_id as int;
        let (lq, pq, fq, bq) = choose|line: Vec<String>, plies: Vec<String>, fen: String, black: bool|
            {
                &&& line_to_spec(tree, qid) == Some(views(line@))
                &&& call_ensures(replay, (line,), Ok::<Vec<String>, E>(plies))
                &&& q.fen_after@ == fen_after_plies(plies@, start)
                &&& q.fen_before@ == fen_before_plies(plies@, start)
                &&& fen@ == q.fen_before@
                &&& call_ensures(black_to_move, (fen,), Ok::<bool, E>(black))
                &&& q.mover_white == !black
            };
        assert(views(lq@) == lp);
        assert(views(ls@).drop_last() =~= views(lq@));
        assert(ls@.len() == lq@.len() + 1);
        assert(views(ps@).drop_last() == views(pq@));
        assert(pq@.len() == lq@.len());
        if pq@.len() >= 1 {
            assert(views(ps@).drop_last()[pq@.len() - 1] == views(pq@)[pq@.len() - 1]);
        }
    }
}

/// Classifies one searched node: its move's figures (see [`figures_of`];
/// the played move is what `to_uci` makes of the move, without its check
/// marks, in the position before it), the classification `classify` gives
/// them, the move's cost as `cost_of` reckons it for the mover, and the
/// evaluation after the move from White's side as `white_eval` gives it.
pub fn classify_search<U, K, C, W, Cl, Co>(
    search: &NodeSearch,
    before: &Vec<Analysis>,
    after_top: Option<Score>,
    features: Option<BoardFeatures>,
    to_uci: U,
    classify: K,
    cost_of: C,
    white_eval: W,
) -> (r: (Eval, Cl, Co)) where
    U: Fn(String, String) -> Option<String>,
    K: Fn(Score, Score, bool, Option<Score>) -> Cl,
    C: Fn(bool, Score, Score, Cl) -> Co,
    W: Fn(Score, bool) -> Eval,
    Cl: Copy,

    requires
        !settled(features) ==> (after_top matches Some(s) ==> negatable(s)),
        forall|f: String, m: String| #[trigger] call_requires(to_uci, (f, m)),
        forall|b: Score, a: Score, best: bool, second: Option<Score>|
            #[trigger] call_requires(classify, (b, a, best, second)),
        forall|w: bool, b: Score, a: Score, c: Cl| #[trigger] call_requires(cost_of, (w, b, a, c)),
        forall|a: Score, w: bool| #[trigger] call_requires(white_eval, (a, w)),
    ensures
        exists|fen: String, core: String, played: Option<String>|
            #![trigger call_ensures(to_uci, (fen, core), played)]
            {
                let fig = figures_of(
                    before@,
                    match played {
                        Some(p) => Some(p@),
                        None => None,
                    },
                    features,
                    after_top,
                );
                &&& fen@ == search.fen_before@
                &&& core@ == san_core_of(search.san@)
                &&& call_ensures(to_uci, (fen, core), played)
                &&& call_ensures(
                    classify,
                    (fig.best_before, fig.after_played, fig.played_is_best, fig.second_best),
                    r.1,
                )
                &&& call_ensures(
                    cost_of,
                    (search.mover_white, fig.best_before, fig.after_played, r.1),
                    r.2,
                )
                &&& call_ensures(white_eval, (fig.after_played, search.mover_white), r.0)
            },
{
    let fen = copy_str(search.fen_before.as_str());
    let core = san_core(search.san.as_str());
    let ghost fen_copy = fen;
    let ghost core_copy = core;
    let played = to_uci(fen, core);
    let played_ref = match &played {
        Some(p) => Some(p.as_str()),
        None => None,
    };
    let fig = search_figures(before, played_ref, features, after_top);
    let classification = classify(fig.best_before, fig.after_played, fig.played_is_best, fig.second_best);
    let cost = cost_of(search.mover_white, fig.best_before, fig.after_played, classification);
    let eval = white_eval(fig.after_played, search.mover_white);
    proof {
        let spec_fig = figures_of(
            before@,
            match played {
                Some(p) => Some(p@),
                None => None,
            },
            features,
            after_top,
        );
        assert(fig == spec_fig);
        assert(call_ensures(to_uci, (fen_copy, core_copy), played));
    }
    (eval, classification, cost)
}

} // verus!
