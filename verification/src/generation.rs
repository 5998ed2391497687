//! The study generators' request rules: what must be configured before a
//! generation runs, and the defaults a request leaves to the server.

use vstd::prelude::*;

use crate::text::{blank, copy_str, is_blank, push_str};
use crate::tool_args::{startpos, startpos_fen, DEFAULT_DEPTH};

verus! {

/// Per-variation engine movetime (ms) for a danger-map generation when the
/// request leaves it unset.
pub const DEFAULT_MOVETIME_MS: u64 = 500;

/// MultiPV line count for a danger-map generation when unset.
pub const DEFAULT_MULTIPV: u16 = 2;

/// The guidance answered when no engine is configured.
pub open spec fn no_engine_text() -> Seq<char> {
    "No engine configured: start chess-base with --engine / CHESS_BASE_ENGINE."@
}

/// The guidance answered when no language model is configured.
pub open spec fn no_model_text() -> Seq<char> {
    "No language model configured: set ANTHROPIC_API_KEY to enable study generation."@
}

/// A generation needs an engine, then a language model; a missing one is a
/// `503` carrying the operator's guidance.
pub fn generation_ready(has_engine: bool, has_model: bool) -> (r: Result<(), (u16, String)>)
    ensures
        !has_engine ==> (r matches Err((code, m)) && code == 503 && m@ == no_engine_text()),
        has_engine && !has_model ==> (r matches Err((code, m)) && code == 503 && m@
            == no_model_text()),
        has_engine && has_model ==> r is Ok,
{
    if !has_engine {
        return Err((503, copy_str("No engine configured: start chess-base with --engine / CHESS_BASE_ENGINE.")));
    }
    if !has_model {
        return Err(
            (503, copy_str("No language model configured: set ANTHROPIC_API_KEY to enable study generation.")),
        );
    }
    Ok(())
}

/// A danger-map generation checks the client's spine first, then the
/// operator's configuration: `spine_error` is what reading the spine PGN
/// from the start position reported, if it failed, and is a `400`
/// "invalid spine PGN: …" whatever is configured; otherwise as
/// [`generation_ready`].
pub fn danger_generation_ready(spine_error: &Option<String>, has_engine: bool, has_model: bool) -> (r:
    Result<(), (u16, String)>)
    ensures
        spine_error matches Some(e) ==> (r matches Err((code, m)) && code == 400 && m@
            == "invalid spine PGN: "@ + e@),
        spine_error is None && !has_engine ==> (r matches Err((code, m)) && code == 503 && m@
            == no_engine_text()),
        spine_error is None && has_engine && !has_model ==> (r matches Err((code, m)) && code
            == 503 && m@ == no_model_text()),
        spine_error is None && has_engine && has_model ==> r is Ok,
{
    if let Some(e) = spine_error {
        let mut m = copy_str("invalid spine PGN: ");
        push_str(&mut m, e.as_str());
        return Err((400, m));
    }
    generation_ready(has_engine, has_model)
}

/// The position a danger walk starts from: the given one unless blank, else
/// the standard start.
pub fn danger_start_fen(start_fen: Option<&str>) -> (r: String)
    ensures
        match start_fen {
            Some(f) if !is_blank(f@) => r@ == f@,
            _ => r@ == startpos_fen(),
        },
{
    match start_fen {
        Some(f) => if blank(f) {
            startpos()
        } else {
            copy_str(f)
        },
        None => startpos(),
    }
}

/// The position a study generation grows from: the given one, else the
/// standard start.
pub fn generate_start_fen(start_fen: Option<String>) -> (r: String)
    ensures
        match start_fen {
            Some(f) => r@ == f@,
            None => r@ == startpos_fen(),
        },
{
    match start_fen {
        Some(f) => f,
        None => startpos(),
    }
}

/// The search settings of a danger-map generation: movetime and MultiPV,
/// defaulted when unset.
pub fn danger_walk_settings(movetime_ms: Option<u64>, multipv: Option<u16>) -> (r: (u64, u16))
    ensures
        r.0 == match movetime_ms {
            Some(m) => m,
            None => DEFAULT_MOVETIME_MS,
        },
        r.1 == match multipv {
            Some(n) => n,
            None => DEFAULT_MULTIPV,
        },
{
    let m = match movetime_ms {
        Some(m) => m,
        None => DEFAULT_MOVETIME_MS,
    };
    let n = match multipv {
        Some(n) => n,
        None => DEFAULT_MULTIPV,
    };
    (m, n)
}

/// The engine depth of a study generation: the requested one, else the
/// default depth.
pub fn generate_depth(engine_depth: Option<u32>) -> (r: u32)
    ensures
        r == match engine_depth {
            Some(d) => d,
            None => DEFAULT_DEPTH,
        },
{
    match engine_depth {
        Some(d) => d,
        None => DEFAULT_DEPTH,
    }
}

} // verus!
