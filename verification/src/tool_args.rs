//! Readers for MCP tool arguments: each tool's arguments are checked here,
//! with the tool's own error text, before any service is called.

use vstd::prelude::*;

use crate::json::{absent_or_null, bool_of, field, i64_of, str_of, u64_of, Json};
use crate::text::{blank, copy_str, is_blank, push_str, trim, trimmed};

verus! {

/// The standard chess start position.
pub open spec fn startpos_fen() -> Seq<char> {
    "rnbqkbnr/pppppppp/8/8/8/8/PPPPPPPP/RNBQKBNR w KQkq - 0 1"@
}

/// The standard chess start position, as FEN.
pub fn startpos() -> (r: String)
    ensures
        r@ == startpos_fen(),
{
    copy_str("rnbqkbnr/pppppppp/8/8/8/8/PPPPPPPP/RNBQKBNR w KQkq - 0 1")
}

/// Engine search depth when a tool leaves it unset.
pub const DEFAULT_DEPTH: u32 = 18;
/// Per-variation engine movetime (ms) for `danger_map` when unset.
pub const DEFAULT_DANGER_MOVETIME_MS: u64 = 500;
/// MultiPV line count for `danger_map` when unset.
pub const DEFAULT_DANGER_MULTIPV: u16 = 2;
/// Upper bound on `danger_map`'s `multipv`.
pub const MAX_DANGER_MULTIPV: u64 = 16;
/// Reference games returned when `limit` is unset.
pub const DEFAULT_REFERENCE_LIMIT: u64 = 20;
/// Cap on `db_reference_games`' `limit`.
pub const MAX_REFERENCE_LIMIT: u64 = 200;

/// The engine's own caps, which the argument readers clamp to.
pub struct EngineCaps {
    pub max_depth: u32,
    pub max_movetime_ms: u64,
    /// Most plan arrows per node.
    pub max_plan_lines: u8,
}

/// The `fen` argument when it is a string with visible content.
pub open spec fn fen_of(args: Json) -> Option<Seq<char>> {
    match str_of(field(args, "fen"@)) {
        Some(f) => if is_blank(f) {
            None
        } else {
            Some(f)
        },
        None => None,
    }
}

/// The `fen` argument, if it is a non-blank string.
pub fn fen_arg(args: &Json) -> (r: Option<String>)
    ensures
        r matches Some(f) ==> fen_of(*args) == Some(f@),
        r is None ==> fen_of(*args) is None,
{
    match args.get("fen") {
        Some(Json::Str(f)) => {
            if blank(f.as_str()) {
                None
            } else {
                Some(copy_str(f.as_str()))
            }
        },
        _ => None,
    }
}

/// The error text for an optional integer argument that is not `>= 1`.
pub open spec fn not_positive_msg(key: Seq<char>) -> Seq<char> {
    "Invalid arguments: `"@ + key + "` must be an integer >= 1."@
}

/// What an optional positive-integer argument reads as: absent or `null` is
/// `None`; a present value must be an integer `>= 1` and is clamped to `max`.
pub open spec fn bounded(v: Option<Json>, key: Seq<char>, max: u64) -> Result<
    Option<u64>,
    Seq<char>,
> {
    if absent_or_null(v) {
        Ok(None)
    } else {
        match u64_of(v) {
            Some(n) => if n >= 1 {
                Ok(Some(if n < max {
                    n
                } else {
                    max
                }))
            } else {
                Err(not_positive_msg(key))
            },
            None => Err(not_positive_msg(key)),
        }
    }
}

/// Same as [`bounded`], with the error text as a `String`.
pub open spec fn bounded_ok(r: Result<Option<u64>, String>, want: Result<Option<u64>, Seq<char>>) -> bool {
    match want {
        Ok(o) => r == Ok::<Option<u64>, String>(o),
        Err(m) => r matches Err(e) && e@ == m,
    }
}

/// Reads an optional positive-integer argument: absent or `null` is
/// `Ok(None)`; a value `< 1` or not a non-negative integer is an error;
/// otherwise the value, clamped to `max`.
pub fn opt_bounded_u64(args: &Json, key: &str, max: u64) -> (r: Result<Option<u64>, String>)
    ensures
        bounded_ok(r, bounded(field(*args, key@), key@, max)),
{
    match args.get(key) {
        None => Ok(None),
        Some(Json::Null) => Ok(None),
        Some(Json::UInt(n)) => {
            if *n >= 1 {
                Ok(Some(if *n < max {
                    *n
                } else {
                    max
                }))
            } else {
                Err(not_positive(key))
            }
        },
        _ => Err(not_positive(key)),
    }
}

fn not_positive(key: &str) -> (m: String)
    ensures
        m@ == not_positive_msg(key@),
{
    let mut m = String::new();
    push_str(&mut m, "Invalid arguments: `");
    push_str(&mut m, key);
    push_str(&mut m, "` must be an integer >= 1.");
    m
}

/// The error text for an optional count that is not a non-negative
/// integer.
pub open spec fn not_count_msg(key: Seq<char>) -> Seq<char> {
    "Invalid arguments: `"@ + key + "` must be an integer >= 0."@
}

/// What an optional count argument reads as: absent or `null` is `None`; a
/// present value must be a non-negative integer (`0` included) and is
/// clamped to `max`.
pub open spec fn capped(v: Option<Json>, key: Seq<char>, max: u64) -> Result<Option<u64>, Seq<char>> {
    if absent_or_null(v) {
        Ok(None)
    } else {
        match u64_of(v) {
            Some(n) => Ok(Some(if n < max {
                n
            } else {
                max
            })),
            None => Err(not_count_msg(key)),
        }
    }
}

/// Reads an optional count argument (see [`capped`]).
pub fn opt_capped_u64(args: &Json, key: &str, max: u64) -> (r: Result<Option<u64>, String>)
    ensures
        bounded_ok(r, capped(field(*args, key@), key@, max)),
{
    match args.get(key) {
        None => Ok(None),
        Some(Json::Null) => Ok(None),
        Some(Json::UInt(n)) => Ok(Some(if *n < max {
            *n
        } else {
            max
        })),
        _ => {
            let mut m = String::new();
            push_str(&mut m, "Invalid arguments: `");
            push_str(&mut m, key);
            push_str(&mut m, "` must be an integer >= 0.");
            Err(m)
        },
    }
}

/// Engine search limits.
pub struct Limits {
    pub depth: Option<u32>,
    pub movetime_ms: Option<u64>,
    pub nodes: Option<u64>,
}

/// Reads `depth` / `movetime_ms` as engine limits: each optional, `>= 1`,
/// and clamped to the engine's caps (the depth is clamped before it is
/// narrowed to `u32`, so it never wraps).
pub fn limits_arg(args: &Json, caps: &EngineCaps) -> (r: Result<Limits, String>)
    ensures
        match bounded(field(*args, "depth"@), "depth"@, caps.max_depth as u64) {
            Err(m) => r matches Err(e) && e@ == m,
            Ok(d) => match bounded(
                field(*args, "movetime_ms"@),
                "movetime_ms"@,
                caps.max_movetime_ms,
            ) {
                Err(m) => r matches Err(e) && e@ == m,
                Ok(t) => r matches Ok(l) && l.depth == (match d {
                    Some(x) => Some(x as u32),
                    None => None,
                }) && l.movetime_ms == t && l.nodes is None,
            },
        },
{
    let depth = match opt_bounded_u64(args, "depth", caps.max_depth as u64) {
        Ok(d) => match d {
            Some(x) => Some(x as u32),
            None => None,
        },
        Err(m) => return Err(m),
    };
    let movetime_ms = match opt_bounded_u64(args, "movetime_ms", caps.max_movetime_ms) {
        Ok(t) => t,
        Err(m) => return Err(m),
    };
    Ok(Limits { depth, movetime_ms, nodes: None })
}

/// A non-empty string argument, copied: absent, non-string and empty
/// values all read as `None`.
pub fn str_arg(args: &Json, key: &str) -> (r: Option<String>)
    ensures
        r matches Some(s) ==> str_of(field(*args, key@)) == Some(s@) && s@.len() > 0,
        r is None ==> (str_of(field(*args, key@)) is None || str_of(field(*args, key@))
            == Some(Seq::<char>::empty())),
{
    match crate::json::get_str(args, key) {
        Some(s) => if s.as_str().unicode_len() == 0 {
            None
        } else {
            Some(s)
        },
        None => None,
    }
}

/// An integer argument that fits an `i32`.
pub fn int_arg(args: &Json, key: &str) -> (r: Option<i32>)
    ensures
        r == match i64_of(field(*args, key@)) {
            Some(v) => if i32::MIN <= v <= i32::MAX {
                Some(v as i32)
            } else {
                None
            },
            None => None,
        },
{
    match crate::json::get_i64(args, key) {
        Some(v) => if -2147483648i64 <= v && v <= 2147483647i64 {
            Some(v as i32)
        } else {
            None
        },
        None => None,
    }
}

/// Where a tool should persist what it built, instead of returning it.
pub struct SeedParams {
    pub database_id: i32,
    pub name: String,
    pub global: bool,
}

/// The error the optional `save_as` argument raises, if any.
pub open spec fn save_as_error(args: Json) -> Option<Seq<char>> {
    let s = field(args, "save_as"@);
    if absent_or_null(s) {
        None
    } else if i64_of(field(s->0, "database_id"@)) is None {
        Some("Invalid arguments: `save_as` needs an integer `database_id`."@)
    } else if str_of(field(s->0, "name"@)) is None {
        Some("Invalid arguments: `save_as` needs a string `name`."@)
    } else {
        None
    }
}

/// The value read from a well-formed (or absent) `save_as` argument.
pub open spec fn save_as_value_ok(args: Json, o: Option<SeedParams>) -> bool {
    let s = field(args, "save_as"@);
    if absent_or_null(s) {
        o is None
    } else {
        let v = s->0;
        o matches Some(p) && Some(p.database_id as i64) == (match i64_of(
            field(v, "database_id"@),
        ) {
            Some(id) => Some(id as i32 as i64),
            None => None,
        }) && str_of(field(v, "name"@)) == Some(p.name@) && p.global == flag_of(
            field(v, "global"@),
        )
    }
}

/// How the optional `save_as` argument reads.
pub open spec fn save_as_ok(args: Json, r: Result<Option<SeedParams>, String>) -> bool {
    match save_as_error(args) {
        Some(m) => r matches Err(e) && e@ == m,
        None => r matches Ok(o) && save_as_value_ok(args, o),
    }
}

/// Reads the optional `save_as` argument: absent or `null` means "return
/// the data"; present, it needs an integer `database_id` and a string
/// `name`, and may set `global`.
pub fn parse_save_as(args: &Json) -> (r: Result<Option<SeedParams>, String>)
    ensures
        save_as_ok(*args, r),
{
    let save_as = match args.get("save_as") {
        None => return Ok(None),
        Some(Json::Null) => return Ok(None),
        Some(v) => v,
    };
    let database_id = match crate::json::get_i64(save_as, "database_id") {
        Some(id) => id,
        None => {
            return Err(
                copy_str("Invalid arguments: `save_as` needs an integer `database_id`."),
            )
        },
    };
    let name = match crate::json::get_str(save_as, "name") {
        Some(n) => n,
        None => return Err(copy_str("Invalid arguments: `save_as` needs a string `name`.")),
    };
    let global = match crate::json::get_bool(save_as, "global") {
        Some(b) => b,
        None => false,
    };
    Ok(Some(SeedParams { database_id: database_id as i32, name, global }))
}

// ---------------------------------------------------------------------------
// Required arguments
// ---------------------------------------------------------------------------

/// The error text for a missing or mistyped required argument.
pub open spec fn missing_msg(kind: Seq<char>, key: Seq<char>) -> Seq<char> {
    "Invalid arguments: missing "@ + kind + " field `"@ + key + "`."@
}

fn missing(kind: &str, key: &str) -> (m: String)
    ensures
        m@ == missing_msg(kind@, key@),
{
    let mut m = String::new();
    push_str(&mut m, "Invalid arguments: missing ");
    push_str(&mut m, kind);
    push_str(&mut m, " field `");
    push_str(&mut m, key);
    push_str(&mut m, "`.");
    m
}

/// A required integer argument (`as_i64`).
pub fn required_i64(args: &Json, key: &str) -> (r: Result<i64, String>)
    ensures
        match i64_of(field(*args, key@)) {
            Some(v) => r == Ok::<i64, String>(v),
            None => r matches Err(e) && e@ == missing_msg("integer"@, key@),
        },
{
    match crate::json::get_i64(args, key) {
        Some(v) => Ok(v),
        None => Err(missing("integer", key)),
    }
}

/// A required non-negative integer argument (`as_u64`).
pub fn required_u64(args: &Json, key: &str) -> (r: Result<u64, String>)
    ensures
        match u64_of(field(*args, key@)) {
            Some(v) => r == Ok::<u64, String>(v),
            None => r matches Err(e) && e@ == missing_msg("integer"@, key@),
        },
{
    match crate::json::get_u64(args, key) {
        Some(v) => Ok(v),
        None => Err(missing("integer", key)),
    }
}

/// A required string argument.
pub fn required_str(args: &Json, key: &str) -> (r: Result<String, String>)
    ensures
        match str_of(field(*args, key@)) {
            Some(v) => r matches Ok(s) && s@ == v,
            None => r matches Err(e) && e@ == missing_msg("string"@, key@),
        },
{
    match crate::json::get_str(args, key) {
        Some(v) => Ok(v),
        None => Err(missing("string", key)),
    }
}

/// An optional integer argument narrowed to `i32` (`as_i64`, then `as i32`).
pub open spec fn opt_i32_of(v: Option<Json>) -> Option<i32> {
    match i64_of(v) {
        Some(n) => Some(n as i32),
        None => None,
    }
}

fn opt_i32(args: &Json, key: &str) -> (r: Option<i32>)
    ensures
        r == opt_i32_of(field(*args, key@)),
{
    match crate::json::get_i64(args, key) {
        Some(n) => Some(n as i32),
        None => None,
    }
}

/// An optional boolean argument, `false` when absent or mistyped.
pub open spec fn flag_of(v: Option<Json>) -> bool {
    match bool_of(v) {
        Some(b) => b,
        None => false,
    }
}

fn flag(args: &Json, key: &str) -> (r: bool)
    ensures
        r == flag_of(field(*args, key@)),
{
    match crate::json::get_bool(args, key) {
        Some(b) => b,
        None => false,
    }
}

/// The error text when the engine is needed but none is configured.
pub open spec fn no_engine_msg() -> Seq<char> {
    "No engine configured: start chess-base with --engine / CHESS_BASE_ENGINE."@
}

/// The "no engine configured" error.
pub fn no_engine() -> (m: String)
    ensures
        m@ == no_engine_msg(),
{
    copy_str("No engine configured: start chess-base with --engine / CHESS_BASE_ENGINE.")
}

// ---------------------------------------------------------------------------
// Per-tool readers
// ---------------------------------------------------------------------------

/// A move given as SAN or as UCI long algebraic (`g1f3`).
pub enum MoveInput {
    San(String),
    Uci(String),
}

/// `study_add_move`'s arguments.
pub struct AddMoveArgs {
    pub study_id: i64,
    pub from_node_id: u64,
    pub mv: MoveInput,
    pub comment: Option<String>,
    pub nag: Option<u8>,
}

/// Reads `study_add_move`'s arguments: `study_id`, `from_node_id`, a move as
/// `san` or `uci` (`san` wins when both are given), and an optional inline
/// `comment` / `nag`.
pub fn add_move_args(args: &Json) -> (r: Result<AddMoveArgs, String>)
    ensures
        match i64_of(field(*args, "study_id"@)) {
            None => r matches Err(e) && e@ == missing_msg("integer"@, "study_id"@),
            Some(sid) => match u64_of(field(*args, "from_node_id"@)) {
                None => r matches Err(e) && e@ == missing_msg("integer"@, "from_node_id"@),
                Some(from) => match (
                    str_of(field(*args, "san"@)),
                    str_of(field(*args, "uci"@)),
                ) {
                    (None, None) => r matches Err(e) && e@
                        == "Invalid arguments: provide a move as `san` or `uci`."@,
                    (san, uci) => r matches Ok(a) && a.study_id == sid && a.from_node_id
                        == from && (match san {
                        Some(m) => a.mv matches MoveInput::San(x) && x@ == m,
                        None => a.mv matches MoveInput::Uci(x) && x@ == uci->0,
                    }) && (match a.comment {
                        Some(c) => str_of(field(*args, "comment"@)) == Some(c@),
                        None => str_of(field(*args, "comment"@)) is None,
                    }) && a.nag == (match u64_of(field(*args, "nag"@)) {
                        Some(n) => Some(n as u8),
                        None => None,
                    }),
                },
            },
        },
{
    let study_id = match required_i64(args, "study_id") {
        Ok(v) => v,
        Err(e) => return Err(e),
    };
    let from_node_id = match required_u64(args, "from_node_id") {
        Ok(v) => v,
        Err(e) => return Err(e),
    };
    let mv = match crate::json::get_str(args, "san") {
        Some(san) => MoveInput::San(san),
        None => match crate::json::get_str(args, "uci") {
            Some(uci) => MoveInput::Uci(uci),
            None => {
                return Err(copy_str("Invalid arguments: provide a move as `san` or `uci`."));
            },
        },
    };
    let comment = crate::json::get_str(args, "comment");
    let nag = match crate::json::get_u64(args, "nag") {
        Some(n) => Some(n as u8),
        None => None,
    };
    Ok(AddMoveArgs { study_id, from_node_id, mv, comment, nag })
}

/// `game_save_as_study`'s arguments.
pub struct SaveAsStudyArgs {
    pub game_id: i64,
    pub name: String,
    pub folder_id: Option<i32>,
    pub analyse: bool,
    pub depth: u32,
}

/// Reads `game_save_as_study`'s arguments: `game_id` and `name` are
/// required; `analyse` needs an engine (`has_engine`); `depth` defaults to
/// [`DEFAULT_DEPTH`] and is clamped to the engine's cap.
pub fn save_as_study_args(args: &Json, caps: &EngineCaps, has_engine: bool) -> (r: Result<
    SaveAsStudyArgs,
    String,
>)
    ensures
        match i64_of(field(*args, "game_id"@)) {
            None => r matches Err(e) && e@ == missing_msg("integer"@, "game_id"@),
            Some(gid) => match str_of(field(*args, "name"@)) {
                None => r matches Err(e) && e@ == missing_msg("string"@, "name"@),
                Some(name) => match bounded(
                    field(*args, "depth"@),
                    "depth"@,
                    caps.max_depth as u64,
                ) {
                    Err(m) => r matches Err(e) && e@ == m,
                    Ok(d) => if flag_of(field(*args, "analyse"@)) && !has_engine {
                        r matches Err(e) && e@ == no_engine_msg()
                    } else {
                        r matches Ok(a) && a.game_id == gid && a.name@ == name && a.folder_id
                            == opt_i32_of(field(*args, "folder_id"@)) && a.analyse == flag_of(
                            field(*args, "analyse"@),
                        ) && a.depth == (match d {
                            Some(x) => x as u32,
                            None => DEFAULT_DEPTH,
                        })
                    },
                },
            },
        },
{
    let game_id = match required_i64(args, "game_id") {
        Ok(v) => v,
        Err(e) => return Err(e),
    };
    let name = match required_str(args, "name") {
        Ok(v) => v,
        Err(e) => return Err(e),
    };
    let folder_id = opt_i32(args, "folder_id");
    let analyse = flag(args, "analyse");
    let depth = match opt_bounded_u64(args, "depth", caps.max_depth as u64) {
        Ok(d) => match d {
            Some(x) => x as u32,
            None => DEFAULT_DEPTH,
        },
        Err(e) => return Err(e),
    };
    if analyse && !has_engine {
        return Err(no_engine());
    }
    Ok(SaveAsStudyArgs { game_id, name, folder_id, analyse, depth })
}

/// What `folder_update` changes.
pub struct FolderUpdateArgs {
    pub folder_id: i64,
    pub name: Option<String>,
    pub reparent: bool,
    pub parent_id: Option<i32>,
}

/// Reads `folder_update`'s arguments. Asking to change nothing (no `name`,
/// `reparent` unset) is an error.
pub fn folder_update_args(args: &Json) -> (r: Result<FolderUpdateArgs, String>)
    ensures
        match i64_of(field(*args, "folder_id"@)) {
            None => r matches Err(e) && e@ == missing_msg("integer"@, "folder_id"@),
            Some(fid) => if str_of(field(*args, "name"@)) is None && !flag_of(
                field(*args, "reparent"@),
            ) {
                r matches Err(e) && e@
                    == "Invalid arguments: set `name` and/or `reparent` to change something."@
            } else {
                r matches Ok(a) && a.folder_id == fid && (match a.name {
                    Some(n) => str_of(field(*args, "name"@)) == Some(n@),
                    None => str_of(field(*args, "name"@)) is None,
                }) && a.reparent == flag_of(field(*args, "reparent"@)) && a.parent_id
                    == opt_i32_of(field(*args, "parent_id"@))
            },
        },
{
    let folder_id = match required_i64(args, "folder_id") {
        Ok(v) => v,
        Err(e) => return Err(e),
    };
    let name = crate::json::get_str(args, "name");
    let reparent = flag(args, "reparent");
    let parent_id = opt_i32(args, "parent_id");
    if name.is_none() && !reparent {
        return Err(copy_str("Invalid arguments: set `name` and/or `reparent` to change something."));
    }
    Ok(FolderUpdateArgs { folder_id, name, reparent, parent_id })
}

/// Which side's games a position filter keeps.
pub enum Color {
    White,
    Black,
}

/// `opening_tree`'s arguments (all but the raw `tree` configuration).
pub struct OpeningTreeArgs {
    pub start_fen: String,
    pub depth: u32,
    pub save_as: Option<SeedParams>,
    pub plan_lines: u8,
    pub threats: bool,
    pub color: Option<Color>,
    pub player: Option<String>,
    pub date_from: Option<String>,
    pub date_to: Option<String>,
}

/// The error text for a `tree` configuration the server could not read.
pub open spec fn bad_config_msg(key: Seq<char>, reason: Seq<char>) -> Seq<char> {
    "Invalid arguments: bad `"@ + key + "`: "@ + reason
}

/// A configuration argument was given (not absent, not `null`) and reading
/// it into its configuration failed with `error`.
pub open spec fn config_rejected(args: Json, key: Seq<char>, error: Option<String>) -> bool {
    !absent_or_null(field(args, key)) && error is Some
}

fn bad_config(key: &str, reason: &str) -> (m: String)
    ensures
        m@ == bad_config_msg(key@, reason@),
{
    let mut m = String::new();
    push_str(&mut m, "Invalid arguments: bad `");
    push_str(&mut m, key);
    push_str(&mut m, "`: ");
    push_str(&mut m, reason);
    m
}

/// Reads `opening_tree`'s arguments, in the order the tool checks them:
/// first the engine (`has_engine`; the tool searches every node), then the
/// `tree` configuration (`tree_error` is what reading a given `tree` into
/// the pruning configuration reported, if it failed), then `engine_depth`,
/// `save_as`, `plan_lines` (`0` or omitted: off) and `color` (`white` / `black`). The start
/// position defaults to the standard one.
pub fn opening_tree_args(
    args: &Json,
    caps: &EngineCaps,
    has_engine: bool,
    tree_error: &Option<String>,
) -> (r: Result<OpeningTreeArgs, String>)
    ensures
        !has_engine ==> (r matches Err(e) && e@ == no_engine_msg()),
        has_engine && config_rejected(*args, "tree"@, *tree_error) ==> (r matches Err(e) && e@
            == bad_config_msg("tree"@, tree_error->0@)),
        has_engine && !config_rejected(*args, "tree"@, *tree_error) ==>
        match bounded(field(*args, "engine_depth"@), "engine_depth"@, caps.max_depth as u64) {
            Err(m) => r matches Err(e) && e@ == m,
            Ok(d) => {
                let plan = capped(
                    field(*args, "plan_lines"@),
                    "plan_lines"@,
                    caps.max_plan_lines as u64,
                );
                let color = str_of(field(*args, "color"@));
                if save_as_error(*args) is Some {
                    r matches Err(e) && e@ == save_as_error(*args)->0
                } else if plan is Err {
                    r matches Err(e) && e@ == plan->Err_0
                } else if color matches Some(c) && c != "white"@ && c != "black"@ {
                    r matches Err(e) && e@
                        == "Invalid arguments: color must be 'white' or 'black', got '"@
                        + color->0 + "'"@
                } else {
                    r matches Ok(a) && save_as_value_ok(*args, a.save_as) && a.start_fen@ == (
                    match fen_of(*args) {
                        Some(f) => f,
                        None => startpos_fen(),
                    }) && a.depth == (match d {
                        Some(x) => x as u32,
                        None => DEFAULT_DEPTH,
                    }) && a.plan_lines == (match plan {
                        Ok(Some(n)) => n as u8,
                        _ => 0u8,
                    }) && a.threats == flag_of(field(*args, "threats"@)) && (match color {
                        None => a.color is None,
                        Some(c) => if c == "white"@ {
                            a.color matches Some(Color::White)
                        } else {
                            a.color matches Some(Color::Black)
                        },
                    }) && opt_str_ok(a.player, field(*args, "player"@)) && opt_str_ok(
                        a.date_from,
                        field(*args, "date_from"@),
                    ) && opt_str_ok(a.date_to, field(*args, "date_to"@))
                }
            },
        },
{
    if !has_engine {
        return Err(no_engine());
    }
    let start_fen = match fen_arg(args) {
        Some(f) => f,
        None => startpos(),
    };
    if !crate::json::is_absent_or_null(args, "tree") {
        if let Some(reason) = tree_error {
            return Err(bad_config("tree", reason.as_str()));
        }
    }
    let depth = match opt_bounded_u64(args, "engine_depth", caps.max_depth as u64) {
        Ok(d) => match d {
            Some(x) => x as u32,
            None => DEFAULT_DEPTH,
        },
        Err(e) => return Err(e),
    };
    let save_as = match parse_save_as(args) {
        Ok(s) => s,
        Err(e) => return Err(e),
    };
    let plan_lines = match opt_capped_u64(args, "plan_lines", caps.max_plan_lines as u64) {
        Ok(n) => match n {
            Some(x) => x as u8,
            None => 0u8,
        },
        Err(e) => return Err(e),
    };
    let threats = flag(args, "threats");
    let color = match crate::json::get_str(args, "color") {
        None => None,
        Some(c) => {
            if crate::text::str_eq(c.as_str(), "white") {
                Some(Color::White)
            } else if crate::text::str_eq(c.as_str(), "black") {
                Some(Color::Black)
            } else {
                let mut m = String::new();
                push_str(&mut m, "Invalid arguments: color must be 'white' or 'black', got '");
                push_str(&mut m, c.as_str());
                push_str(&mut m, "'");
                return Err(m);
            }
        },
    };
    let player = crate::json::get_str(args, "player");
    let date_from = crate::json::get_str(args, "date_from");
    let date_to = crate::json::get_str(args, "date_to");
    Ok(OpeningTreeArgs {
        start_fen,
        depth,
        save_as,
        plan_lines,
        threats,
        color,
        player,
        date_from,
        date_to,
    })
}

/// An optional string copied from an argument.
pub open spec fn opt_str_ok(o: Option<String>, v: Option<Json>) -> bool {
    match o {
        Some(s) => str_of(v) == Some(s@),
        None => str_of(v) is None,
    }
}

/// `danger_map`'s walk options.
pub struct DangerMapOptions {
    pub spine_pgn: String,
    pub movetime_ms: u64,
    pub multipv: u16,
    pub save_as: Option<SeedParams>,
}

/// Reads `danger_map`'s arguments, in the order the tool checks them: the
/// `spine_pgn` string, then the engine (`has_engine`), then the spine
/// itself (`spine_error` is what reading `spine_pgn` from the start
/// position reported, if it failed), the `spine` configuration
/// (`config_error` as for `opening_tree`'s `tree`), `movetime_ms` (default
/// 500 ms, clamped to the engine's cap), `multipv` (default 2, at most 16),
/// then `save_as`.
pub fn danger_map_options(
    args: &Json,
    caps: &EngineCaps,
    has_engine: bool,
    spine_error: &Option<String>,
    config_error: &Option<String>,
) -> (r: Result<DangerMapOptions, String>)
    ensures
        str_of(field(*args, "spine_pgn"@)) is None ==> (r matches Err(e) && e@ == missing_msg(
            "string"@,
            "spine_pgn"@,
        )),
        str_of(field(*args, "spine_pgn"@)) is Some && !has_engine ==> (r matches Err(e) && e@
            == no_engine_msg()),
        str_of(field(*args, "spine_pgn"@)) is Some && has_engine && spine_error is Some ==> (r matches Err(
            e,
        ) && e@ == bad_config_msg("spine_pgn"@, spine_error->0@)),
        str_of(field(*args, "spine_pgn"@)) is Some && has_engine && spine_error is None
            && config_rejected(*args, "spine"@, *config_error) ==> (r matches Err(e) && e@
            == bad_config_msg("spine"@, config_error->0@)),
        str_of(field(*args, "spine_pgn"@)) is Some && has_engine && spine_error is None
            && !config_rejected(*args, "spine"@, *config_error) ==> (r matches Ok(o) ==> Some(
            o.spine_pgn@,
        ) == str_of(field(*args, "spine_pgn"@))) &&
        match bounded(field(*args, "movetime_ms"@), "movetime_ms"@, caps.max_movetime_ms) {
            Err(m) => r matches Err(e) && e@ == m,
            Ok(t) => match bounded(field(*args, "multipv"@), "multipv"@, MAX_DANGER_MULTIPV) {
                Err(m) => r matches Err(e) && e@ == m,
                Ok(k) => match save_as_error(*args) {
                    Some(m) => r matches Err(e) && e@ == m,
                    None => r matches Ok(o) && o.movetime_ms == (match t {
                        Some(x) => x,
                        None => DEFAULT_DANGER_MOVETIME_MS,
                    }) && o.multipv == (match k {
                        Some(x) => x as u16,
                        None => DEFAULT_DANGER_MULTIPV,
                    }) && save_as_value_ok(*args, o.save_as),
                },
            },
        },
{
    let spine_pgn = match crate::json::get_str(args, "spine_pgn") {
        Some(s) => s,
        None => return Err(missing("string", "spine_pgn")),
    };
    if !has_engine {
        return Err(no_engine());
    }
    if let Some(reason) = spine_error {
        return Err(bad_config("spine_pgn", reason.as_str()));
    }
    if !crate::json::is_absent_or_null(args, "spine") {
        if let Some(reason) = config_error {
            return Err(bad_config("spine", reason.as_str()));
        }
    }
    let movetime_ms = match opt_bounded_u64(args, "movetime_ms", caps.max_movetime_ms) {
        Ok(t) => match t {
            Some(x) => x,
            None => DEFAULT_DANGER_MOVETIME_MS,
        },
        Err(e) => return Err(e),
    };
    let multipv = match opt_bounded_u64(args, "multipv", MAX_DANGER_MULTIPV) {
        Ok(k) => match k {
            Some(x) => x as u16,
            None => DEFAULT_DANGER_MULTIPV,
        },
        Err(e) => return Err(e),
    };
    let save_as = match parse_save_as(args) {
        Ok(s) => s,
        Err(e) => return Err(e),
    };
    Ok(DangerMapOptions { spine_pgn, movetime_ms, multipv, save_as })
}

/// The start position a tool walks from: the `fen` argument, or the
/// standard start.
pub fn start_fen_arg(args: &Json) -> (r: String)
    ensures
        r@ == match fen_of(*args) {
            Some(f) => f,
            None => startpos_fen(),
        },
{
    match fen_arg(args) {
        Some(f) => f,
        None => startpos(),
    }
}

/// `db_reference_games`' `limit`: default 20, at most 200.
pub fn reference_limit(args: &Json) -> (r: Result<u64, String>)
    ensures
        match bounded(field(*args, "limit"@), "limit"@, MAX_REFERENCE_LIMIT) {
            Err(m) => r matches Err(e) && e@ == m,
            Ok(l) => r == Ok::<u64, String>(
                match l {
                    Some(x) => x,
                    None => DEFAULT_REFERENCE_LIMIT,
                },
            ),
        },
{
    match opt_bounded_u64(args, "limit", MAX_REFERENCE_LIMIT) {
        Ok(l) => Ok(
            match l {
                Some(x) => x,
                None => DEFAULT_REFERENCE_LIMIT,
            },
        ),
        Err(e) => Err(e),
    }
}

/// Most games one `db_export_games` call may export.
pub const MAX_EXPORT_GAMES: usize = 200;

/// Whether every element of `items` is an `i64`-sized integer.
pub open spec fn all_integers(items: Seq<Json>) -> bool {
    forall|i: int| 0 <= i < items.len() ==> i64_of(Some(#[trigger] items[i])) is Some
}

fn integers(items: &Vec<Json>) -> (r: Option<Vec<i64>>)
    ensures
        r is Some <==> all_integers(items@),
        r matches Some(v) ==> v@.len() == items@.len() && forall|i: int|
            0 <= i < items@.len() ==> Some(v@[i]) == i64_of(Some(items@[i])),
{
    let mut out: Vec<i64> = Vec::new();
    let mut i: usize = 0;
    while i < items.len()
        invariant
            i <= items@.len(),
            out@.len() == i,
            forall|j: int| 0 <= j < i ==> Some(out@[j]) == i64_of(Some(items@[j])),
        decreases items.len() - i,
    {
        match &items[i] {
            Json::UInt(n) => {
                if *n <= 9223372036854775807u64 {
                    out.push(*n as i64);
                } else {
                    assert(i64_of(Some(items@[i as int])) is None);
                    return None;
                }
            },
            Json::NegInt(n) => {
                out.push(*n);
            },
            _ => {
                assert(i64_of(Some(items@[i as int])) is None);
                return None;
            },
        }
        i = i + 1;
    }
    assert forall|j: int| 0 <= j < items@.len() implies i64_of(Some(#[trigger] items@[j])) is Some by {
        assert(Some(out@[j]) == i64_of(Some(items@[j])));
    }
    Some(out)
}

/// Reads `db_export_games`' `game_ids`: a non-empty array of at most
/// [`MAX_EXPORT_GAMES`] integers.
pub fn export_game_ids(args: &Json) -> (r: Result<Vec<i64>, String>)
    ensures
        match field(*args, "game_ids"@) {
            Some(Json::Array(items)) => if items@.len() == 0 {
                r matches Err(e) && e@ == "Invalid arguments: `game_ids` must not be empty."@
            } else if items@.len() > MAX_EXPORT_GAMES {
                r matches Err(e) && e@
                    == "Invalid arguments: `game_ids` exceeds the 200-game cap."@
            } else if !all_integers(items@) {
                r matches Err(e) && e@ == "Invalid arguments: `game_ids` must be integers."@
            } else {
                r matches Ok(v) && v@.len() == items@.len() && forall|i: int|
                    0 <= i < items@.len() ==> Some(v@[i]) == i64_of(Some(items@[i]))
            },
            _ => r matches Err(e) && e@ == missing_msg("array"@, "game_ids"@),
        },
{
    match args.get("game_ids") {
        Some(Json::Array(items)) => {
            if items.len() == 0 {
                return Err(copy_str("Invalid arguments: `game_ids` must not be empty."));
            }
            if items.len() > MAX_EXPORT_GAMES {
                return Err(copy_str("Invalid arguments: `game_ids` exceeds the 200-game cap."));
            }
            match integers(items) {
                Some(v) => Ok(v),
                None => Err(copy_str("Invalid arguments: `game_ids` must be integers.")),
            }
        },
        _ => Err(missing("array", "game_ids")),
    }
}

/// Reads `study_merge_games`' `game_ids`: an array of integers, each
/// narrowed to `i32` (an empty list is left to the merge itself to reject).
pub fn merge_game_ids(args: &Json) -> (r: Result<Vec<i32>, String>)
    ensures
        match field(*args, "game_ids"@) {
            Some(Json::Array(items)) => if !all_integers(items@) {
                r matches Err(e) && e@ == "Invalid arguments: `game_ids` must be integers."@
            } else {
                r matches Ok(v) && v@.len() == items@.len() && forall|i: int|
                    0 <= i < items@.len() ==> Some(v@[i] as i64) == (match i64_of(
                        Some(items@[i]),
                    ) {
                        Some(n) => Some(n as i32 as i64),
                        None => None,
                    })
            },
            _ => r matches Err(e) && e@ == missing_msg("array"@, "game_ids"@),
        },
{
    match args.get("game_ids") {
        Some(Json::Array(items)) => match integers(items) {
            Some(v) => {
                let mut out: Vec<i32> = Vec::new();
                let mut i: usize = 0;
                while i < v.len()
                    invariant
                        i <= v@.len(),
                        out@.len() == i,
                        forall|j: int| 0 <= j < i ==> out@[j] == v@[j] as i32,
                    decreases v.len() - i,
                {
                    out.push(v[i] as i32);
                    i = i + 1;
                }
                Ok(out)
            },
            None => Err(copy_str("Invalid arguments: `game_ids` must be integers.")),
        },
        _ => Err(missing("array", "game_ids")),
    }
}

/// Export formats `study_export` offers.
pub enum ExportFormat {
    /// Headerless annotated movetext.
    Pgn,
    /// A Lichess-study chapter (header tags + movetext).
    Lichess,
}

/// Reads `study_export`'s `format`: `pgn` (the default) or `lichess`.
pub fn export_format(args: &Json) -> (r: Result<ExportFormat, String>)
    ensures
        match str_of(field(*args, "format"@)) {
            None => r matches Ok(ExportFormat::Pgn),
            Some(f) => if f == "pgn"@ {
                r matches Ok(ExportFormat::Pgn)
            } else if f == "lichess"@ {
                r matches Ok(ExportFormat::Lichess)
            } else {
                r matches Err(e) && e@ == "Invalid arguments: unknown `format` '"@ + f
                    + "' (use `pgn` or `lichess`)."@
            },
        },
{
    match args.get("format") {
        Some(Json::Str(f)) => {
            if crate::text::str_eq(f.as_str(), "pgn") {
                Ok(ExportFormat::Pgn)
            } else if crate::text::str_eq(f.as_str(), "lichess") {
                Ok(ExportFormat::Lichess)
            } else {
                let mut m = String::new();
                push_str(&mut m, "Invalid arguments: unknown `format` '");
                push_str(&mut m, f.as_str());
                push_str(&mut m, "' (use `pgn` or `lichess`).");
                Err(m)
            }
        },
        _ => Ok(ExportFormat::Pgn),
    }
}

// ---------------------------------------------------------------------------
// Game export and whole-game analysis
// ---------------------------------------------------------------------------

/// The stored PGNs an export writes: each trimmed, blank or missing ones
/// left out, in order.
pub open spec fn export_parts(pgns: Seq<Option<String>>) -> Seq<Seq<char>>
    decreases pgns.len(),
{
    if pgns.len() == 0 {
        Seq::empty()
    } else {
        let rest = export_parts(pgns.drop_last());
        match pgns.last() {
            Some(p) => if is_blank(p@) {
                rest
            } else {
                rest.push(trimmed(p@))
            },
            None => rest,
        }
    }
}

/// `parts` joined with a blank line between each two.
pub open spec fn joined_games(parts: Seq<Seq<char>>) -> Seq<char>
    decreases parts.len(),
{
    if parts.len() == 0 {
        Seq::empty()
    } else if parts.len() == 1 {
        parts[0]
    } else {
        joined_games(parts.drop_last()) + "\n\n"@ + parts.last()
    }
}

/// The text of an export: the selected games' stored PGNs (see
/// `export_parts`) separated by blank lines; none at all is an error.
pub fn exported_pgns(pgns: &Vec<Option<String>>) -> (r: Result<String, String>)
    ensures
        export_parts(pgns@).len() == 0 ==> (r matches Err(e) && e@
            == "none of the selected games have a stored PGN"@),
        export_parts(pgns@).len() > 0 ==> (r matches Ok(t) && t@ == joined_games(
            export_parts(pgns@),
        )),
{
    let mut out = String::new();
    let mut count: usize = 0;
    let mut i: usize = 0;
    while i < pgns.len()
        invariant
            i <= pgns@.len(),
            count == export_parts(pgns@.take(i as int)).len(),
            out@ == joined_games(export_parts(pgns@.take(i as int))),
            count <= i,
        decreases pgns.len() - i,
    {
        proof {
            assert(pgns@.take(i + 1).drop_last() =~= pgns@.take(i as int));
            assert(pgns@.take(i + 1).last() == pgns@[i as int]);
        }
        let ghost parts = export_parts(pgns@.take(i as int));
        if let Some(p) = &pgns[i] {
            if !blank(p.as_str()) {
                let t = trim(p.as_str());
                proof {
                    assert(export_parts(pgns@.take(i + 1)) == parts.push(t@));
                    assert(parts.push(t@).drop_last() =~= parts);
                    assert(parts.push(t@).last() == t@);
                }
                if count > 0 {
                    push_str(&mut out, "\n\n");
                } else {
                    proof {
                        assert(out@ =~= Seq::<char>::empty());
                    }
                }
                push_str(&mut out, t.as_str());
                count = count + 1;
            }
        }
        i = i + 1;
    }
    proof {
        assert(pgns@.take(pgns@.len() as int) =~= pgns@);
    }
    if count == 0 {
        return Err(copy_str("none of the selected games have a stored PGN"));
    }
    Ok(out)
}

/// Reads `analyse_game`'s `pgn`: a string that is not blank.
pub fn pgn_arg(args: &Json) -> (r: Result<String, String>)
    ensures
        match str_of(field(*args, "pgn"@)) {
            Some(p) if !is_blank(p) => r matches Ok(x) && x@ == p,
            _ => r matches Err(e) && e@ == missing_msg("string"@, "pgn"@),
        },
{
    match crate::json::get_str(args, "pgn") {
        Some(p) => if blank(p.as_str()) {
            Err(missing("string", "pgn"))
        } else {
            Ok(p)
        },
        None => Err(missing("string", "pgn")),
    }
}

/// `analyse_game`'s arguments.
pub struct AnalyseGameArgs {
    pub pgn: String,
    pub depth: u32,
}

/// Reads `analyse_game`'s arguments, in the order the tool checks them:
/// first the engine (`has_engine`; the review searches every move), then a
/// non-blank `pgn`, then `depth` (default [`DEFAULT_DEPTH`], clamped to the
/// engine's cap).
pub fn analyse_game_args(args: &Json, caps: &EngineCaps, has_engine: bool) -> (r: Result<
    AnalyseGameArgs,
    String,
>)
    ensures
        !has_engine ==> (r matches Err(e) && e@ == no_engine_msg()),
        has_engine ==> match str_of(field(*args, "pgn"@)) {
            Some(p) if !is_blank(p) => match bounded(
                field(*args, "depth"@),
                "depth"@,
                caps.max_depth as u64,
            ) {
                Err(m) => r matches Err(e) && e@ == m,
                Ok(d) => r matches Ok(a) && a.pgn@ == p && a.depth == (match d {
                    Some(x) => x as u32,
                    None => DEFAULT_DEPTH,
                }),
            },
            _ => r matches Err(e) && e@ == missing_msg("string"@, "pgn"@),
        },
{
    if !has_engine {
        return Err(no_engine());
    }
    let pgn = match pgn_arg(args) {
        Ok(p) => p,
        Err(e) => return Err(e),
    };
    let depth = match opt_bounded_u64(args, "depth", caps.max_depth as u64) {
        Ok(d) => match d {
            Some(x) => x as u32,
            None => DEFAULT_DEPTH,
        },
        Err(e) => return Err(e),
    };
    Ok(AnalyseGameArgs { pgn, depth })
}

/// The answer when a game parses but has no moves.
pub open spec fn no_moves_msg() -> Seq<char> {
    "the PGN has no moves to analyse"@
}

/// What a game review needs of the parsed PGN: `parsed` is the mainline's
/// length, or the parser's error text. An unreadable game is "could not
/// parse PGN: …", an empty mainline [`no_moves_msg`]; otherwise the review
/// may run.
pub fn mainline_check(parsed: Result<usize, String>) -> (r: Result<(), String>)
    ensures
        match parsed {
            Err(m) => r matches Err(e) && e@ == "could not parse PGN: "@ + m@,
            Ok(n) => if n == 0 {
                r matches Err(e) && e@ == no_moves_msg()
            } else {
                r is Ok
            },
        },
{
    match parsed {
        Err(m) => {
            let mut e = copy_str("could not parse PGN: ");
            push_str(&mut e, m.as_str());
            Err(e)
        },
        Ok(n) => if n == 0 {
            Err(copy_str("the PGN has no moves to analyse"))
        } else {
            Ok(())
        },
    }
}

} // verus!
