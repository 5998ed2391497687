//! How each service's failure reaches an MCP caller: as a failed tool
//! outcome whose text never leaks storage or engine internals.

use vstd::prelude::*;

use crate::mcp::ToolOutcome;
use crate::study::{study_error_text, StudyError};
use crate::text::{copy_str, push_str};

verus! {

/// A failed outcome whose text is `prefix` followed by `detail`.
fn failed(prefix: &str, detail: &str) -> (r: ToolOutcome)
    ensures
        r.is_error,
        r.text@ == prefix@ + detail@,
{
    let mut t = copy_str(prefix);
    push_str(&mut t, detail);
    ToolOutcome::error(t)
}

/// A failed outcome with exactly `text`.
fn failed_with(text: &str) -> (r: ToolOutcome)
    ensures
        r.is_error,
        r.text@ == text@,
{
    ToolOutcome::error(copy_str(text))
}

/// A study failure: storage trouble is reported generically, anything else
/// by its own text.
pub fn study_error(e: &StudyError) -> (r: ToolOutcome)
    ensures
        r.is_error,
        e is Db ==> r.text@ == "study operation failed: database error"@,
        !(e is Db) ==> r.text@ == study_error_text(*e),
{
    match e {
        StudyError::Db(_) => failed_with("study operation failed: database error"),
        _ => ToolOutcome::error(e.to_text()),
    }
}

/// Why a game review failed.
pub enum ReviewError {
    /// The game could not be read.
    BadGame(String),
    /// The engine failed.
    Engine,
}

/// A review failure.
pub fn review_error(e: &ReviewError) -> (r: ToolOutcome)
    ensures
        r.is_error,
        r.text@ == match *e {
            ReviewError::BadGame(m) => "could not review game: "@ + m@,
            ReviewError::Engine => "engine analysis failed"@,
        },
{
    match e {
        ReviewError::BadGame(m) => failed("could not review game: ", m.as_str()),
        ReviewError::Engine => failed_with("engine analysis failed"),
    }
}

/// A failure of a service whose storage errors are hidden and whose other
/// errors are shown by their display text.
pub enum ServiceFailure {
    /// A storage failure.
    Db,
    /// Any other failure, by its display text.
    Other(String),
}

/// The outcome of a service failure: storage trouble by `db_text`, others
/// by their own text.
pub open spec fn service_failure_text(e: ServiceFailure, db_text: Seq<char>) -> Seq<char> {
    match e {
        ServiceFailure::Db => db_text,
        ServiceFailure::Other(m) => m@,
    }
}

/// A database-catalogue failure.
pub fn database_error(e: &ServiceFailure) -> (r: ToolOutcome)
    ensures
        r.is_error,
        r.text@ == service_failure_text(*e, "database query failed"@),
{
    match e {
        ServiceFailure::Db => failed_with("database query failed"),
        ServiceFailure::Other(m) => failed_with(m.as_str()),
    }
}

/// A folder failure.
pub fn folder_error(e: &ServiceFailure) -> (r: ToolOutcome)
    ensures
        r.is_error,
        r.text@ == service_failure_text(*e, "folder operation failed: database error"@),
{
    match e {
        ServiceFailure::Db => failed_with("folder operation failed: database error"),
        ServiceFailure::Other(m) => failed_with(m.as_str()),
    }
}

/// An import failure.
pub fn import_error(e: &ServiceFailure) -> (r: ToolOutcome)
    ensures
        r.is_error,
        r.text@ == service_failure_text(*e, "import failed: database error"@),
{
    match e {
        ServiceFailure::Db => failed_with("import failed: database error"),
        ServiceFailure::Other(m) => failed_with(m.as_str()),
    }
}

/// Why a stored game could not be served.
pub enum GameError {
    NotFound,
    Db,
}

/// A stored-game failure.
pub fn game_error(e: &GameError) -> (r: ToolOutcome)
    ensures
        r.is_error,
        r.text@ == match *e {
            GameError::NotFound => "game not found"@,
            GameError::Db => "database query failed"@,
        },
{
    match e {
        GameError::NotFound => failed_with("game not found"),
        GameError::Db => failed_with("database query failed"),
    }
}

/// Why a position search failed.
pub enum SearchError {
    InvalidFen(String),
    Serialize,
    Db,
}

/// A position-report failure.
pub fn report_error(e: &SearchError) -> (r: ToolOutcome)
    ensures
        r.is_error,
        r.text@ == match *e {
            SearchError::InvalidFen(m) => "invalid FEN: "@ + m@,
            _ => "database query failed"@,
        },
{
    match e {
        SearchError::InvalidFen(m) => failed("invalid FEN: ", m.as_str()),
        _ => failed_with("database query failed"),
    }
}

/// Why building a tree or walking a spine from a position failed.
pub enum WalkError {
    /// The start position is not a valid FEN.
    InvalidFen(String),
    /// The position could not be read from the database.
    Source,
}

/// The failure text of a variation-tree build or a danger-spine walk.
pub open spec fn walk_error_text(e: WalkError) -> Seq<char> {
    match e {
        WalkError::InvalidFen(m) => "invalid FEN: "@ + m@,
        WalkError::Source => "could not read the position from the database"@,
    }
}

/// A variation-tree failure.
pub fn tree_error(e: &WalkError) -> (r: ToolOutcome)
    ensures
        r.is_error,
        r.text@ == walk_error_text(*e),
{
    match e {
        WalkError::InvalidFen(m) => failed("invalid FEN: ", m.as_str()),
        WalkError::Source => failed_with("could not read the position from the database"),
    }
}

/// A danger-spine failure.
pub fn spine_error(e: &WalkError) -> (r: ToolOutcome)
    ensures
        r.is_error,
        r.text@ == walk_error_text(*e),
{
    tree_error(e)
}

/// Why a header search failed.
pub enum HeaderSearchError {
    BadRequest(String),
    InvalidCursor,
    NotFound,
    Serialize,
    Db,
}

/// A header-search failure.
pub fn header_error(e: &HeaderSearchError) -> (r: ToolOutcome)
    ensures
        r.is_error,
        r.text@ == match *e {
            HeaderSearchError::BadRequest(m) => "invalid arguments: "@ + m@,
            HeaderSearchError::InvalidCursor => "invalid arguments: bad `cursor`"@,
            HeaderSearchError::NotFound => "database not found"@,
            _ => "database query failed"@,
        },
{
    match e {
        HeaderSearchError::BadRequest(m) => failed("invalid arguments: ", m.as_str()),
        HeaderSearchError::InvalidCursor => failed_with("invalid arguments: bad `cursor`"),
        HeaderSearchError::NotFound => failed_with("database not found"),
        _ => failed_with("database query failed"),
    }
}

} // verus!
