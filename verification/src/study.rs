//! The study service's own rules, apart from storage: its error kinds and
//! how each is answered, who may write a study, how a move given as SAN is
//! matched against the legal moves, and the checks and game metadata that
//! adding a line or merging games into a repertoire study go through.

use vstd::prelude::*;

use crate::identity::{assert_can_write, can_write, CurrentUser};
use crate::text::{blank, copy_str, decimal, is_blank, push_decimal, push_str, str_eq, trim, trimmed};
use crate::tool_args::{startpos, startpos_fen, MoveInput};
use crate::tree::{line_to_spec, same_except, toggled, MoveTree, Shape};
use crate::analysis::fen_after_plies;

verus! {

/// Why a study operation failed.
pub enum StudyError {
    /// No study with that id is visible to the caller.
    NotFound,
    /// Another user's study, or a global one touched by a non-admin.
    Forbidden,
    /// The node is not in the study's tree.
    InvalidNode(usize),
    /// A structural edit was rejected.
    InvalidEdit(String),
    /// The move is not legal in the position at the target node.
    IllegalMove { san: String, fen: String },
    /// The stored tree could not be read or written.
    Tree(String),
    /// PGN import or export failed; `missing_san` marks a stored tree
    /// holding a move without SAN (our own corruption, not the client's).
    Pgn { message: String, missing_san: bool },
    /// Replaying the tree hit an illegal position or move.
    Position(String),
    /// A storage failure.
    Db(String),
}

/// The error's display text.
pub open spec fn study_error_text(e: StudyError) -> Seq<char> {
    match e {
        StudyError::NotFound => "study not found"@,
        StudyError::Forbidden => "not permitted"@,
        StudyError::InvalidNode(id) => "node "@ + decimal(id as nat) + " not found in study"@,
        StudyError::InvalidEdit(m) => m@,
        StudyError::IllegalMove { san, fen } => "illegal move '"@ + san@ + "' in position "@
            + fen@,
        StudyError::Tree(m) => "corrupt study tree: "@ + m@,
        StudyError::Pgn { message, missing_san } => message@,
        StudyError::Position(m) => m@,
        StudyError::Db(m) => m@,
    }
}

/// The HTTP status a study error is answered with: client mistakes are
/// `400`, a missing or forbidden study `404` / `403`, our own failures `500`.
pub open spec fn study_error_status(e: StudyError) -> u16 {
    match e {
        StudyError::NotFound => 404,
        StudyError::Forbidden => 403,
        StudyError::InvalidNode(_) => 404,
        StudyError::IllegalMove { .. } => 400,
        StudyError::InvalidEdit(_) => 400,
        StudyError::Pgn { missing_san, .. } => if missing_san {
            500
        } else {
            400
        },
        _ => 500,
    }
}

impl StudyError {
    /// The error's display text.
    pub fn to_text(&self) -> (r: String)
        ensures
            r@ == study_error_text(*self),
    {
        match self {
            StudyError::NotFound => copy_str("study not found"),
            StudyError::Forbidden => copy_str("not permitted"),
            StudyError::InvalidNode(id) => {
                let mut r = copy_str("node ");
                push_decimal(&mut r, *id as u64);
                push_str(&mut r, " not found in study");
                r
            },
            StudyError::InvalidEdit(m) => copy_str(m.as_str()),
            StudyError::IllegalMove { san, fen } => {
                let mut r = copy_str("illegal move '");
                push_str(&mut r, san.as_str());
                push_str(&mut r, "' in position ");
                push_str(&mut r, fen.as_str());
                r
            },
            StudyError::Tree(m) => {
                let mut r = copy_str("corrupt study tree: ");
                push_str(&mut r, m.as_str());
                r
            },
            StudyError::Pgn { message, .. } => copy_str(message.as_str()),
            StudyError::Position(m) => copy_str(m.as_str()),
            StudyError::Db(m) => copy_str(m.as_str()),
        }
    }

    /// The HTTP status the error is answered with.
    pub fn status(&self) -> (r: u16)
        ensures
            r == study_error_status(*self),
    {
        match self {
            StudyError::NotFound => 404,
            StudyError::Forbidden => 403,
            StudyError::InvalidNode(_) => 404,
            StudyError::IllegalMove { .. } => 400,
            StudyError::InvalidEdit(_) => 400,
            StudyError::Pgn { missing_san, .. } => if *missing_san {
                500
            } else {
                400
            },
            _ => 500,
        }
    }
}

fn invalid_edit(m: &str) -> (r: StudyError)
    ensures
        r matches StudyError::InvalidEdit(x) && x@ == m@,
{
    StudyError::InvalidEdit(copy_str(m))
}

/// The write guard on a looked-up study: a missing one is `NotFound` (ids
/// that do not exist are not told apart from invisible ones); one the
/// caller may not write is `Forbidden`. `owner` is the study's owner when it
/// was found (`Some(None)`: a global study).
pub fn check_writable(owner: Option<Option<&str>>, user: &CurrentUser) -> (r: Result<(), StudyError>)
    ensures
        owner is None ==> r matches Err(StudyError::NotFound),
        owner matches Some(o) && !can_write(
            match o {
                Some(x) => Some(x@),
                None => None,
            },
            *user,
        ) ==> r matches Err(StudyError::Forbidden),
        owner matches Some(o) && can_write(
            match o {
                Some(x) => Some(x@),
                None => None,
            },
            *user,
        ) ==> r is Ok,
{
    match owner {
        None => Err(StudyError::NotFound),
        Some(o) => match assert_can_write(o, user) {
            Ok(()) => Ok(()),
            Err(_) => Err(StudyError::Forbidden),
        },
    }
}

/// Who may create a study: a global one needs an admin; otherwise the caller
/// owns it. The owner to store (`None` for global) or `Forbidden`.
pub fn study_owner(user: &CurrentUser, global: bool) -> (r: Result<Option<String>, StudyError>)
    ensures
        global && !user.is_admin ==> r matches Err(StudyError::Forbidden),
        global && user.is_admin ==> r matches Ok(None),
        !global ==> (r matches Ok(Some(o)) && o@ == user.id@),
{
    if global {
        if user.is_admin {
            Ok(None)
        } else {
            Err(StudyError::Forbidden)
        }
    } else {
        Ok(Some(copy_str(user.id.as_str())))
    }
}

// ---------------------------------------------------------------------------
// Moves given as SAN
// ---------------------------------------------------------------------------

/// `san` without its trailing check / mate markers.
pub open spec fn san_core_of(san: Seq<char>) -> Seq<char>
    decreases san.len(),
{
    if san.len() > 0 && (san.last() == '+' || san.last() == '#') {
        san_core_of(san.drop_last())
    } else {
        san
    }
}

/// `san` without its trailing check / mate markers, so `Qh5+` matches the
/// generated `Qh5`.
pub fn san_core(san: &str) -> (r: String)
    ensures
        r@ == san_core_of(san@),
{
    let v = crate::text::chars_of(san);
    let mut end: usize = v.len();
    proof {
        assert(san@.take(end as int) =~= san@);
    }
    while end > 0 && (v[end - 1] == '+' || v[end - 1] == '#')
        invariant
            v@ == san@,
            end <= v@.len(),
            san_core_of(san@) == san_core_of(san@.take(end as int)),
        decreases end,
    {
        proof {
            assert(san@.take(end - 1) =~= san@.take(end as int).drop_last());
            assert(san@.take(end as int).last() == v@[end - 1]);
        }
        end = end - 1;
    }
    proof {
        assert(san@.take(end as int) =~= v@.subrange(0, end as int));
    }
    crate::text::string_of(&v, 0, end)
}

/// Resolves a move given as SAN against the legal moves in `fen` (in their
/// generated order) to the canonical SAN stored in the tree: the first legal
/// move that matches, check / mate markers aside; none is `IllegalMove`.
pub fn resolve_san(legal: &Vec<String>, san: &str, fen: &str) -> (r: Result<String, StudyError>)
    ensures
        r matches Ok(s) ==> exists|i: int|
            0 <= i < legal@.len() && legal@[i]@ == s@ && san_core_of(legal@[i]@) == san_core_of(
                san@,
            ) && forall|j: int| 0 <= j < i ==> san_core_of(#[trigger] legal@[j]@) != san_core_of(
                san@,
            ),
        r is Err ==> (forall|i: int|
            0 <= i < legal@.len() ==> san_core_of(#[trigger] legal@[i]@) != san_core_of(san@)) && (
        r matches Err(StudyError::IllegalMove { san: s, fen: f }) && s@ == san@ && f@ == fen@),
{
    let want = san_core(san);
    let mut i: usize = 0;
    while i < legal.len()
        invariant
            i <= legal@.len(),
            want@ == san_core_of(san@),
            forall|j: int| 0 <= j < i ==> san_core_of(#[trigger] legal@[j]@) != san_core_of(san@),
        decreases legal.len() - i,
    {
        let core = san_core(legal[i].as_str());
        if str_eq(core.as_str(), want.as_str()) {
            return Ok(copy_str(legal[i].as_str()));
        }
        i = i + 1;
    }
    Err(StudyError::IllegalMove { san: copy_str(san), fen: copy_str(fen) })
}

/// The result of appending a move: the new node, the position it reaches
/// and the canonical SAN stored.
pub struct AddedMove {
    pub node_id: usize,
    pub fen: String,
    pub san: String,
}

// ---------------------------------------------------------------------------
// Adding a line, merging games
// ---------------------------------------------------------------------------

/// The trimmed name of a new study, required to be non-blank.
pub fn new_study_name(name: Option<&str>) -> (r: Result<String, StudyError>)
    ensures
        match name {
            Some(n) if !is_blank(n@) => r matches Ok(s) && s@ == trimmed(n@),
            _ => r matches Err(StudyError::InvalidEdit(m)) && m@
                == "a name is required for a new study"@,
        },
{
    match name {
        Some(n) => if blank(n) {
            Err(invalid_edit("a name is required for a new study"))
        } else {
            Ok(trim(n))
        },
        None => Err(invalid_edit("a name is required for a new study")),
    }
}

/// Whether a study's tree starts from the standard position (only such a
/// tree can host lines from the standard start).
pub fn check_standard_tree(start: &str, what: &str) -> (r: Result<(), StudyError>)
    ensures
        start@ == startpos_fen() ==> r is Ok,
        start@ != startpos_fen() ==> (r matches Err(StudyError::InvalidEdit(m)) && m@ == "cannot "@
            + what@ + " a study with a set-up start position"@),
{
    if str_eq(start, "rnbqkbnr/pppppppp/8/8/8/8/PPPPPPPP/RNBQKBNR w KQkq - 0 1") {
        Ok(())
    } else {
        let mut m = copy_str("cannot ");
        push_str(&mut m, what);
        push_str(&mut m, " a study with a set-up start position");
        Err(StudyError::InvalidEdit(m))
    }
}

/// The target of adding a line.
pub enum LineTarget {
    /// Graft into this existing study.
    Existing(i32),
    /// Create a new study with this (trimmed) name in this database.
    New { name: String, database_id: i32 },
}

/// The checks before adding a line from the standard start: some moves are
/// required; an existing study is the target when given, else a new study
/// needs a name and a database.
pub fn add_line_target(
    move_count: usize,
    study_id: Option<i32>,
    database_id: Option<i32>,
    name: Option<&str>,
) -> (r: Result<LineTarget, StudyError>)
    ensures
        move_count == 0 ==> (r matches Err(StudyError::InvalidEdit(m)) && m@ == "no moves to add"@),
        move_count > 0 && study_id is Some ==> r == Ok::<LineTarget, StudyError>(
            LineTarget::Existing(study_id->0),
        ),
        move_count > 0 && study_id is None ==> match name {
            Some(n) if !is_blank(n@) => match database_id {
                Some(d) => r matches Ok(LineTarget::New { name: x, database_id: y }) && x@
                    == trimmed(n@) && y == d,
                None => r matches Err(StudyError::InvalidEdit(m)) && m@
                    == "a database is required for a new study"@,
            },
            _ => r matches Err(StudyError::InvalidEdit(m)) && m@
                == "a name is required for a new study"@,
        },
{
    if move_count == 0 {
        return Err(invalid_edit("no moves to add"));
    }
    match study_id {
        Some(id) => Ok(LineTarget::Existing(id)),
        None => {
            let name = match new_study_name(name) {
                Ok(n) => n,
                Err(e) => return Err(e),
            };
            match database_id {
                Some(d) => Ok(LineTarget::New { name, database_id: d }),
                None => Err(invalid_edit("a database is required for a new study")),
            }
        },
    }
}

// ---------------------------------------------------------------------------
// Who may read a study
// ---------------------------------------------------------------------------

/// The rows a caller may read: its own (`owner`), the global ones (no
/// owner) when `global`, and the shared (public) ones when `public`.
pub struct ReadScope {
    pub owner: Option<String>,
    pub global: bool,
    pub public: bool,
}

/// The read scope of `user`: the anonymous caller reads shared studies
/// only (never global ones); a credential limited to global rows reads
/// global and shared ones; anyone else reads their own, the global and the
/// shared ones.
pub open spec fn read_scope_of(user: CurrentUser) -> (Option<Seq<char>>, bool, bool) {
    if user.public {
        (None, false, true)
    } else if user.global_only {
        (None, true, true)
    } else {
        (Some(user.id@), true, true)
    }
}

/// The view of a read scope.
pub open spec fn scope_view(s: ReadScope) -> (Option<Seq<char>>, bool, bool) {
    (
        match s.owner {
            Some(o) => Some(o@),
            None => None,
        },
        s.global,
        s.public,
    )
}

/// The read scope of `user` (see `read_scope_of`).
pub fn read_scope(user: &CurrentUser) -> (r: ReadScope)
    ensures
        scope_view(r) == read_scope_of(*user),
{
    if user.public {
        ReadScope { owner: None, global: false, public: true }
    } else if user.global_only {
        ReadScope { owner: None, global: true, public: true }
    } else {
        ReadScope { owner: Some(copy_str(user.id.as_str())), global: true, public: true }
    }
}

/// Whether a row owned by `owner` (`None`: global) and shared when `shared`
/// falls in the scope.
pub open spec fn in_scope(s: (Option<Seq<char>>, bool, bool), owner: Option<Seq<char>>, shared: bool) -> bool {
    ||| (s.0 is Some && owner == s.0)
    ||| (s.1 && owner is None)
    ||| (s.2 && shared)
}

/// Whether a row falls in the scope (see `in_scope`).
pub fn readable(scope: &ReadScope, owner: Option<&str>, shared: bool) -> (r: bool)
    ensures
        r == in_scope(
            scope_view(*scope),
            match owner {
                Some(o) => Some(o@),
                None => None,
            },
            shared,
        ),
{
    let own = match (&scope.owner, owner) {
        (Some(me), Some(o)) => str_eq(me.as_str(), o),
        _ => false,
    };
    own || (scope.global && owner.is_none()) || (scope.public && shared)
}

/// The anonymous caller reads only shared studies: never a private or a
/// global one. A signed-in caller (not limited to global rows) always reads
/// its own studies, the global ones and the shared ones.
pub proof fn read_scope_tiers(user: CurrentUser, owner: Option<Seq<char>>, shared: bool)
    ensures
        user.public ==> (in_scope(read_scope_of(user), owner, shared) <==> shared),
        !user.public && !user.global_only ==> (in_scope(read_scope_of(user), owner, shared) <==> (
        owner == Some(user.id@) || owner is None || shared)),
{
}

/// The scope as a condition over `owner_id` and `public`, its arms joined
/// with ` OR `.
pub open spec fn scope_condition(s: (Option<Seq<char>>, bool, bool)) -> Seq<char> {
    let own = match s.0 {
        Some(o) => seq!["owner_id = '"@ + o + "'"@],
        None => Seq::empty(),
    };
    let global = if s.1 {
        seq!["owner_id IS NULL"@]
    } else {
        Seq::empty()
    };
    let public = if s.2 {
        seq!["public = TRUE"@]
    } else {
        Seq::empty()
    };
    join_or(own + global + public)
}

/// Conditions joined with ` OR `.
pub open spec fn join_or(arms: Seq<Seq<char>>) -> Seq<char>
    decreases arms.len(),
{
    if arms.len() == 0 {
        Seq::empty()
    } else if arms.len() == 1 {
        arms[0]
    } else {
        join_or(arms.drop_last()) + " OR "@ + arms.last()
    }
}

impl ReadScope {
    /// The scope as a condition text (see `scope_condition`).
    pub fn condition(&self) -> (r: String)
        ensures
            r@ == scope_condition(scope_view(*self)),
    {
        let ghost v = scope_view(*self);
        let mut arms: Vec<String> = Vec::new();
        if let Some(o) = &self.owner {
            let mut a = copy_str("owner_id = '");
            push_str(&mut a, o.as_str());
            push_str(&mut a, "'");
            arms.push(a);
        }
        if self.global {
            arms.push(copy_str("owner_id IS NULL"));
        }
        if self.public {
            arms.push(copy_str("public = TRUE"));
        }
        proof {
            let own = match v.0 {
                Some(o) => seq!["owner_id = '"@ + o + "'"@],
                None => Seq::<Seq<char>>::empty(),
            };
            let global = if v.1 {
                seq!["owner_id IS NULL"@]
            } else {
                Seq::<Seq<char>>::empty()
            };
            let public = if v.2 {
                seq!["public = TRUE"@]
            } else {
                Seq::<Seq<char>>::empty()
            };
            assert(crate::text::views(arms@) =~= own + global + public);
        }
        let mut r = String::new();
        let mut i: usize = 0;
        while i < arms.len()
            invariant
                i <= arms@.len(),
                r@ == join_or(crate::text::views(arms@).take(i as int)),
            decreases arms.len() - i,
        {
            proof {
                assert(crate::text::views(arms@).take(i + 1).drop_last() =~= crate::text::views(
                    arms@,
                ).take(i as int));
            }
            if i > 0 {
                push_str(&mut r, " OR ");
            } else {
                proof {
                    assert(crate::text::views(arms@).take(1) =~= seq![arms@[0]@]);
                    assert(r@ =~= Seq::<char>::empty());
                }
            }
            push_str(&mut r, arms[i].as_str());
            i = i + 1;
        }
        proof {
            assert(crate::text::views(arms@).take(arms@.len() as int) =~= crate::text::views(arms@));
        }
        r
    }
}

// ---------------------------------------------------------------------------
// Edits on a loaded tree
// ---------------------------------------------------------------------------

/// A node id is usable when its line from the root can be read; any other
/// id is `InvalidNode`.
pub fn check_node(tree: &MoveTree, id: usize) -> (r: Result<(), StudyError>)
    ensures
        r is Ok <==> line_to_spec(*tree, id as int) is Some,
        r is Err ==> (r matches Err(StudyError::InvalidNode(x)) && x == id),
        r is Ok ==> tree.has(id as int),
{
    match tree.line_to(id) {
        Some(_) => Ok(()),
        None => Err(StudyError::InvalidNode(id)),
    }
}

/// Sets a node's comment and / or toggles one of its glyphs (see
/// `toggled`); an unusable node is `InvalidNode` and nothing changes.
pub fn annotate_node(tree: &mut MoveTree, id: usize, comment: Option<String>, nag: Option<u8>) -> (r:
    Result<(), StudyError>)
    ensures
        line_to_spec(*old(tree), id as int) is None ==> (r matches Err(StudyError::InvalidNode(x))
            && x == id && *final(tree) == *old(tree)),
        line_to_spec(*old(tree), id as int) is Some ==> ({
            let (a, b) = (old(tree).nodes@[id as int], final(tree).nodes@[id as int]);
            &&& r is Ok
            &&& final(tree).root == old(tree).root
            &&& final(tree).nodes@.len() == old(tree).nodes@.len()
            &&& forall|i: int|
                0 <= i < old(tree).nodes@.len() && i != id ==> #[trigger] final(tree).nodes@[i]
                    == old(tree).nodes@[i]
            &&& b.comment == match comment {
                Some(c) => Some(c),
                None => a.comment,
            }
            &&& b.nags@ == match nag {
                Some(n) => toggled(a.nags@, n),
                None => a.nags@,
            }
            &&& a.id == b.id && a.parent == b.parent && a.children@ == b.children@
            &&& a.san == b.san && a.eval == b.eval && a.shapes@ == b.shapes@
        }),
{
    if let Err(e) = check_node(tree, id) {
        return Err(e);
    }
    if let Some(c) = comment {
        tree.set_comment(id, c);
    }
    if let Some(n) = nag {
        tree.toggle_nag(id, n);
    }
    Ok(())
}

/// Pins shapes on a node (an empty list clears the pin); an unusable node
/// is `InvalidNode` and nothing changes.
pub fn set_node_shapes(tree: &mut MoveTree, id: usize, shapes: Vec<Shape>) -> (r: Result<
    (),
    StudyError,
>)
    ensures
        line_to_spec(*old(tree), id as int) is None ==> (r matches Err(StudyError::InvalidNode(x))
            && x == id && *final(tree) == *old(tree)),
        line_to_spec(*old(tree), id as int) is Some ==> ({
            let (a, b) = (old(tree).nodes@[id as int], final(tree).nodes@[id as int]);
            &&& r is Ok
            &&& final(tree).root == old(tree).root
            &&& final(tree).nodes@.len() == old(tree).nodes@.len()
            &&& forall|i: int|
                0 <= i < old(tree).nodes@.len() && i != id ==> #[trigger] final(tree).nodes@[i]
                    == old(tree).nodes@[i]
            &&& b.shapes@ == shapes@
            &&& a.id == b.id && a.parent == b.parent && a.children@ == b.children@
            &&& a.san == b.san && a.nags@ == b.nags@ && a.comment == b.comment
            &&& a.eval == b.eval
        }),
{
    if let Err(e) = check_node(tree, id) {
        return Err(e);
    }
    tree.set_shapes(id, shapes);
    Ok(())
}

/// Where a danger tree is grafted: the given node, or the root; an unusable
/// node is `InvalidNode`.
pub fn graft_point(tree: &MoveTree, at: Option<usize>) -> (r: Result<usize, StudyError>)
    ensures
        ({
            let target = match at {
                Some(x) => x,
                None => tree.root,
            };
            &&& line_to_spec(*tree, target as int) is Some ==> r == Ok::<usize, StudyError>(target)
            &&& line_to_spec(*tree, target as int) is None ==> (r matches Err(
                StudyError::InvalidNode(x),
            ) && x == target)
        }),
{
    let target = match at {
        Some(x) => x,
        None => tree.root,
    };
    match check_node(tree, target) {
        Ok(()) => Ok(target),
        Err(e) => Err(e),
    }
}

// ---------------------------------------------------------------------------
// Resolving a move against the position
// ---------------------------------------------------------------------------

/// The position reached by a line from the standard start: the position
/// after its last ply (the start itself for an empty line), as `replay`
/// gives the positions after each ply; a failure of `replay` is returned.
pub fn fen_at<R, E>(line: Vec<String>, replay: R) -> (r: Result<String, E>) where
    R: Fn(Vec<String>) -> Result<Vec<String>, E>,

    requires
        call_requires(replay, (line,)),
    ensures
        r matches Ok(f) ==> exists|plies: Vec<String>|
            call_ensures(replay, (line,), Ok::<Vec<String>, E>(plies)) && f@ == fen_after_plies(
                plies@,
                startpos_fen(),
            ),
        r matches Err(e) ==> call_ensures(replay, (line,), Err::<Vec<String>, E>(e)),
{
    let ghost l = line;
    match replay(line) {
        Ok(plies) => {
            let f = if plies.len() >= 1 {
                copy_str(plies[plies.len() - 1].as_str())
            } else {
                startpos()
            };
            proof {
                assert(call_ensures(replay, (l,), Ok::<Vec<String>, E>(plies)));
            }
            Ok(f)
        },
        Err(e) => Err(e),
    }
}

/// A move given as SAN, resolved against the legal moves `legal_sans`
/// gives for `fen` (see `resolve_move`).
pub open spec fn san_resolved<L>(fen: &str, san: Seq<char>, legal_sans: L, r: Result<String, StudyError>) -> bool where
    L: Fn(&str) -> Result<Vec<String>, String>,
 {
    match r {
        Ok(s) => exists|legal: Vec<String>, i: int|
            #![trigger call_ensures(legal_sans, (fen,), Ok::<Vec<String>, String>(legal)), legal@[i]]
            call_ensures(legal_sans, (fen,), Ok::<Vec<String>, String>(legal)) && 0 <= i
                < legal@.len() && legal@[i]@ == s@ && san_core_of(legal@[i]@) == san_core_of(san)
                && forall|j: int| 0 <= j < i ==> san_core_of(#[trigger] legal@[j]@) != san_core_of(san),
        Err(StudyError::IllegalMove { san: x, fen: y }) => x@ == san && y@ == fen@,
        Err(StudyError::Position(m)) => call_ensures(legal_sans, (fen,), Err::<Vec<String>, String>(m)),
        Err(_) => false,
    }
}

/// A move given as UCI, converted by `uci_to_san` (see `resolve_move`).
pub open spec fn uci_resolved<U>(fen: &str, uci: &String, uci_to_san: U, r: Result<String, StudyError>) -> bool where
    U: Fn(&str, &String) -> Result<String, String>,
 {
    match r {
        Ok(s) => call_ensures(uci_to_san, (fen, uci), Ok::<String, String>(s)),
        Err(StudyError::IllegalMove { san: x, fen: y }) => x@ == uci@ && y@ == fen@,
        Err(_) => false,
    }
}

fn resolve_san_move<L>(fen: &str, san: &str, legal_sans: L) -> (r: Result<String, StudyError>) where
    L: Fn(&str) -> Result<Vec<String>, String>,

    requires
        call_requires(legal_sans, (fen,)),
    ensures
        san_resolved(fen, san@, legal_sans, r),
{
    match legal_sans(fen) {
        Ok(legal) => {
            let r = resolve_san(&legal, san, fen);
            proof {
                if r is Ok {
                    let s = r->Ok_0;
                    let i = choose|i: int|
                        0 <= i < legal@.len() && legal@[i]@ == s@ && san_core_of(legal@[i]@)
                            == san_core_of(san@) && forall|j: int|
                            0 <= j < i ==> san_core_of(#[trigger] legal@[j]@) != san_core_of(san@);
                    assert(legal@[i]@ == s@);
                }
            }
            r
        },
        Err(m) => Err(StudyError::Position(m)),
    }
}

fn resolve_uci_move<U>(fen: &str, uci: &String, uci_to_san: U) -> (r: Result<String, StudyError>) where
    U: Fn(&str, &String) -> Result<String, String>,

    requires
        call_requires(uci_to_san, (fen, uci)),
    ensures
        uci_resolved(fen, uci, uci_to_san, r),
{
    match uci_to_san(fen, uci) {
        Ok(s) => Ok(s),
        Err(_) => Err(StudyError::IllegalMove { san: copy_str(uci.as_str()), fen: copy_str(fen) }),
    }
}

/// Resolves a move to the canonical SAN stored in the tree, checking it is
/// legal in `fen`: a SAN move is matched against the legal moves
/// `legal_sans` gives (their SAN, in generated order; its failure is a
/// `Position` error), a UCI move is converted by `uci_to_san`; a move that
/// is neither is `IllegalMove`.
pub fn resolve_move<L, U>(fen: &str, mv: &MoveInput, legal_sans: L, uci_to_san: U) -> (r: Result<
    String,
    StudyError,
>) where L: Fn(&str) -> Result<Vec<String>, String>, U: Fn(&str, &String) -> Result<String, String>
    requires
        call_requires(legal_sans, (fen,)),
        forall|u: &String| #[trigger] call_requires(uci_to_san, (fen, u)),
    ensures
        match *mv {
            MoveInput::San(san) => san_resolved(fen, san@, legal_sans, r),
            MoveInput::Uci(uci) => uci_resolved(fen, &uci, uci_to_san, r),
        },
{
    match mv {
        MoveInput::San(san) => resolve_san_move(fen, san.as_str(), legal_sans),
        MoveInput::Uci(uci) => resolve_uci_move(fen, uci, uci_to_san),
    }
}

/// A move resolved against the position `fen` (see `resolve_move`).
pub open spec fn move_resolved<L, U>(
    fen: &str,
    mv: MoveInput,
    legal_sans: L,
    uci_to_san: U,
    r: Result<String, StudyError>,
) -> bool where L: Fn(&str) -> Result<Vec<String>, String>, U: Fn(&str, &String) -> Result<String, String> {
    match mv {
        MoveInput::San(san) => san_resolved(fen, san@, legal_sans, r),
        MoveInput::Uci(uci) => uci_resolved(fen, &uci, uci_to_san, r),
    }
}

/// Appends a move at node `from` of a loaded tree, after checking it is
/// legal where that node's line leads: the line is replayed from the
/// standard start (`replay`), the move resolved (see `resolve_move`), and
/// the position after it computed (`apply_san`). The new node, that
/// position and the canonical SAN stored are reported. An unusable node is
/// `InvalidNode`, a replay or position failure a `Position` error, an
/// illegal move `IllegalMove`; on any failure the tree is unchanged.
pub fn add_move_to_tree<R, L, U, A>(
    tree: &mut MoveTree,
    from: usize,
    mv: &MoveInput,
    replay: R,
    legal_sans: L,
    uci_to_san: U,
    apply_san: A,
) -> (r: Result<AddedMove, StudyError>) where
    R: Fn(Vec<String>) -> Result<Vec<String>, String>,
    L: Fn(&str) -> Result<Vec<String>, String>,
    U: Fn(&str, &String) -> Result<String, String>,
    A: Fn(&str, &str) -> Result<String, String>,

    requires
        old(tree).nodes@.len() < usize::MAX,
        forall|l: Vec<String>| #[trigger] call_requires(replay, (l,)),
        forall|f: &str| #[trigger] call_requires(legal_sans, (f,)),
        forall|f: &str, u: &String| #[trigger] call_requires(uci_to_san, (f, u)),
        forall|f: &str, s: &str| #[trigger] call_requires(apply_san, (f, s)),
    ensures
        line_to_spec(*old(tree), from as int) is None ==> (r matches Err(
            StudyError::InvalidNode(x),
        ) && x == from),
        r is Err ==> *final(tree) == *old(tree),
        r matches Ok(added) ==> ({
            let n = final(tree).nodes@[added.node_id as int];
            &&& added.node_id == old(tree).nodes@.len()
            &&& final(tree).nodes@.len() == old(tree).nodes@.len() + 1
            &&& final(tree).root == old(tree).root
            &&& n.parent == Some(from)
            &&& n.san matches Some(x) && x@ == added.san@
            &&& forall|i: int|
                0 <= i < old(tree).nodes@.len() && i != from ==> #[trigger] final(tree).nodes@[i]
                    == old(tree).nodes@[i]
            &&& final(tree).nodes@[from as int].children@ == old(
                tree,
            ).nodes@[from as int].children@.push(added.node_id)
            &&& exists|line: Vec<String>, plies: Vec<String>, fen: &str, san: &str|
                #![trigger call_ensures(replay, (line,), Ok::<Vec<String>, String>(plies)), call_ensures(apply_san, (fen, san), Ok::<String, String>(added.fen))]
                line_to_spec(*old(tree), from as int) == Some(crate::text::views(line@))
                    && call_ensures(replay, (line,), Ok::<Vec<String>, String>(plies))
                    && fen@ == fen_after_plies(plies@, startpos_fen()) && san@ == added.san@
                    && move_resolved(fen, *mv, legal_sans, uci_to_san, Ok::<String, StudyError>(added.san))
                    && call_ensures(apply_san, (fen, san), Ok::<String, String>(added.fen))
        }),
{
    let line = match tree.line_to(from) {
        Some(l) => l,
        None => return Err(StudyError::InvalidNode(from)),
    };
    let ghost line_copy = line;
    let fen = match fen_at(line, replay) {
        Ok(f) => f,
        Err(m) => return Err(StudyError::Position(m)),
    };
    let ghost plies = choose|plies: Vec<String>|
        call_ensures(replay, (line_copy,), Ok::<Vec<String>, String>(plies)) && fen@ == fen_after_plies(
            plies@,
            startpos_fen(),
        );
    let fen_ref: &str = fen.as_str();
    let canonical = match resolve_move(fen_ref, mv, legal_sans, uci_to_san) {
        Ok(s) => s,
        Err(e) => return Err(e),
    };
    let san_ref: &str = canonical.as_str();
    let after = match apply_san(fen_ref, san_ref) {
        Ok(a) => a,
        Err(m) => return Err(StudyError::Position(m)),
    };
    let node_id = tree.add_move(from, copy_str(canonical.as_str()));
    let added = AddedMove { node_id, fen: after, san: canonical };
    proof {
        assert(line_to_spec(*old(tree), from as int) == Some(crate::text::views(line_copy@))
                && call_ensures(replay, (line_copy,), Ok::<Vec<String>, String>(plies))
                && fen_ref@ == fen_after_plies(plies@, startpos_fen()) && san_ref@ == added.san@
                && move_resolved(fen_ref, *mv, legal_sans, uci_to_san, Ok::<String, StudyError>(added.san))
                && call_ensures(apply_san, (fen_ref, san_ref), Ok::<String, String>(added.fen)));
        assert(exists|line: Vec<String>, plies: Vec<String>, fen: &str, san: &str|
            #![trigger call_ensures(replay, (line,), Ok::<Vec<String>, String>(plies)), call_ensures(apply_san, (fen, san), Ok::<String, String>(added.fen))]
            line_to_spec(*old(tree), from as int) == Some(crate::text::views(line@))
                && call_ensures(replay, (line,), Ok::<Vec<String>, String>(plies))
                && fen@ == fen_after_plies(plies@, startpos_fen()) && san@ == added.san@
                && move_resolved(fen, *mv, legal_sans, uci_to_san, Ok::<String, StudyError>(added.san))
                && call_ensures(apply_san, (fen, san), Ok::<String, String>(added.fen)));
    }
    Ok(added)
}

// ---------------------------------------------------------------------------
// Grafting a line
// ---------------------------------------------------------------------------

/// `b` is `a` with node `id`'s comment set to `comment`, nothing else
/// changed.
pub open spec fn with_comment(a: MoveTree, b: MoveTree, id: int, comment: String) -> bool {
    &&& same_except(a, b, id)
    &&& b.nodes@[id].comment == Some(comment)
    &&& a.nodes@[id].id == b.nodes@[id].id && a.nodes@[id].parent == b.nodes@[id].parent
    &&& a.nodes@[id].children@ == b.nodes@[id].children@ && a.nodes@[id].san == b.nodes@[id].san
    &&& a.nodes@[id].nags@ == b.nodes@[id].nags@ && a.nodes@[id].eval == b.nodes@[id].eval
    &&& a.nodes@[id].shapes@ == b.nodes@[id].shapes@
}

/// What grafting a line leaves: the tree `graft` made of the line's source
/// tree `src` at the root, and then, when `resolve` finds the line's last
/// node in it, that node carrying `comment` (when given); when it does not
/// (an illegal move cut the graft short), the error.
pub open spec fn line_grafted<G, Rz>(
    before: MoveTree,
    src: &MoveTree,
    sans: &Vec<String>,
    comment: Option<String>,
    graft: G,
    resolve: Rz,
    after: MoveTree,
    r: Result<(), StudyError>,
) -> bool where
    G: Fn(MoveTree, usize, &MoveTree) -> MoveTree,
    Rz: Fn(&MoveTree, usize, &Vec<String>) -> Option<usize>,
 {
    exists|g: MoveTree, leaf: Option<usize>|
        #![trigger call_ensures(graft, (before, before.root, src), g), call_ensures(resolve, (&g, g.root, sans), leaf)]
        {
            &&& call_ensures(graft, (before, before.root, src), g)
            &&& call_ensures(resolve, (&g, g.root, sans), leaf)
            &&& match leaf {
                None => r matches Err(StudyError::InvalidEdit(m)) && m@
                    == "line contains an illegal move"@ && after == g,
                Some(l) => r is Ok && match comment {
                    None => after == g,
                    Some(c) => with_comment(g, after, l as int, c),
                },
            }
        }
}

/// Grafts the line `sans` (as the source tree `src`) into `tree` at its
/// root with `graft`, which follows moves already present and adds the
/// rest, then finds the line's last node with `resolve` and attaches
/// `comment` to it. An illegal move makes the graft stop short, so the
/// line is not found and the edit is refused.
pub fn graft_line<G, Rz>(
    tree: &mut MoveTree,
    src: &MoveTree,
    sans: &Vec<String>,
    comment: Option<String>,
    graft: G,
    resolve: Rz,
) -> (r: Result<(), StudyError>) where
    G: Fn(MoveTree, usize, &MoveTree) -> MoveTree,
    Rz: Fn(&MoveTree, usize, &Vec<String>) -> Option<usize>,

    requires
        call_requires(graft, (*old(tree), old(tree).root, src)),
        forall|t: &MoveTree| #[trigger] call_requires(resolve, (t, t.root, sans)),
        forall|t: &MoveTree, l: usize|
            #[trigger] call_ensures(resolve, (t, t.root, sans), Some(l)) ==> t.has(l as int),
    ensures
        line_grafted(*old(tree), src, sans, comment, graft, resolve, *final(tree), r),
{
    let ghost before = *tree;
    let mut t = MoveTree::new();
    std::mem::swap(&mut t, tree);
    let root = t.root;
    let g = graft(t, root, src);
    *tree = g;
    let ghost grafted = *tree;
    let groot = tree.root;
    let leaf = resolve(&*tree, groot, sans);
    proof {
        assert(call_ensures(graft, (before, before.root, src), grafted));
        assert(call_ensures(resolve, (&grafted, grafted.root, sans), leaf));
    }
    match leaf {
        None => Err(StudyError::InvalidEdit(copy_str("line contains an illegal move"))),
        Some(l) => {
            if let Some(c) = comment {
                tree.set_comment(l, c);
            }
            Ok(())
        },
    }
}

} // verus!
