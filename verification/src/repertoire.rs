//! Folding stored games into a repertoire study: which games can graft from
//! the standard start, the compact `White–Black Year` label and the result
//! each contributes, and the selection of mergeable games.

use vstd::prelude::*;

use crate::study::StudyError;
use crate::text::{blank, chars_of, copy_str, is_blank, push_str, str_eq, string_of, trim, trimmed};
use crate::tool_args::startpos_fen;

verus! {

/// `c` is an ASCII decimal digit.
pub open spec fn is_ascii_digit(c: char) -> bool {
    '0' <= c <= '9'
}

/// `s` equals the lowercase ASCII word `lower`, ignoring ASCII case.
pub open spec fn eq_ignore_case(s: Seq<char>, lower: Seq<char>) -> bool {
    s.len() == lower.len() && forall|i: int|
        0 <= i < s.len() ==> (#[trigger] s[i] == lower[i] || ('A' <= s[i] <= 'Z' && s[i] as u32
            + 32 == lower[i] as u32))
}

fn eq_ignore_case_exec(s: &str, lower: &str) -> (r: bool)
    ensures
        r == eq_ignore_case(s@, lower@),
{
    let a = chars_of(s);
    let b = chars_of(lower);
    if a.len() != b.len() {
        return false;
    }
    let mut i: usize = 0;
    while i < a.len()
        invariant
            a@ == s@,
            b@ == lower@,
            a@.len() == b@.len(),
            i <= a@.len(),
            forall|j: int|
                0 <= j < i ==> (#[trigger] a@[j] == b@[j] || ('A' <= a@[j] <= 'Z' && a@[j] as u32
                    + 32 == b@[j] as u32)),
        decreases a.len() - i,
    {
        let c = a[i];
        let ok = c == b[i] || ('A' <= c && c <= 'Z' && (c as u32) + 32 == (b[i] as u32));
        if !ok {
            return false;
        }
        i = i + 1;
    }
    true
}

/// A game replays from the standard start: a standard variant (unnamed,
/// `standard` or `chess`, any ASCII case) and no set-up position other than
/// the standard one.
pub open spec fn standard_start(variant: Seq<char>, start_fen: Option<Seq<char>>) -> bool {
    &&& (variant.len() == 0 || eq_ignore_case(variant, "standard"@) || eq_ignore_case(
        variant,
        "chess"@,
    ))
    &&& match start_fen {
        Some(f) => trimmed(f) == startpos_fen(),
        None => true,
    }
}

/// Whether a game replays from the standard start (see `standard_start`).
pub fn is_standard_start(variant: &str, start_fen: Option<&str>) -> (r: bool)
    ensures
        r == standard_start(
            variant@,
            match start_fen {
                Some(f) => Some(f@),
                None => None,
            },
        ),
{
    let standard_variant = variant.is_empty() || eq_ignore_case_exec(variant, "standard")
        || eq_ignore_case_exec(variant, "chess");
    let standard_pos = match start_fen {
        Some(f) => {
            let t = trim(f);
            str_eq(t.as_str(), "rnbqkbnr/pppppppp/8/8/8/8/PPPPPPPP/RNBQKBNR w KQkq - 0 1")
        },
        None => true,
    };
    standard_variant && standard_pos
}

/// The part of `s` before its first comma (all of it without one).
pub open spec fn before_comma(s: Seq<char>) -> Seq<char>
    decreases s.len(),
{
    if s.len() == 0 {
        s
    } else if s[0] == ',' {
        Seq::empty()
    } else {
        seq![s[0]] + before_comma(s.drop_first())
    }
}

/// A player's surname from a PGN name field: the trimmed part before the
/// first comma (`Carlsen, Magnus` gives `Carlsen`), or `?` for a blank or
/// missing field.
pub open spec fn surname_of(name: Option<Seq<char>>) -> Seq<char> {
    match name {
        Some(n) if !is_blank(n) => trimmed(before_comma(trimmed(n))),
        _ => "?"@,
    }
}

/// The surname of a PGN player field (see `surname_of`).
pub fn surname(name: Option<&str>) -> (r: String)
    ensures
        r@ == surname_of(
            match name {
                Some(n) => Some(n@),
                None => None,
            },
        ),
{
    match name {
        Some(n) => {
            if blank(n) {
                return copy_str("?");
            }
            let t = trim(n);
            let v = chars_of(t.as_str());
            let mut end: usize = 0;
            while end < v.len() && v[end] != ','
                invariant
                    v@ == t@,
                    end <= v@.len(),
                    forall|j: int| 0 <= j < end ==> v@[j] != ',',
                decreases v.len() - end,
            {
                end = end + 1;
            }
            proof {
                lemma_before_comma(v@, end as int);
            }
            let head = string_of(&v, 0, end);
            trim(head.as_str())
        },
        None => copy_str("?"),
    }
}

proof fn lemma_before_comma(s: Seq<char>, end: int)
    requires
        0 <= end <= s.len(),
        forall|j: int| 0 <= j < end ==> s[j] != ',',
        end == s.len() || s[end] == ',',
    ensures
        before_comma(s) == s.subrange(0, end),
    decreases end,
{
    if end == 0 {
        if s.len() > 0 {
            assert(s[0] == ',');
        }
        assert(s.subrange(0, 0) =~= Seq::<char>::empty());
    } else {
        assert forall|j: int| 0 <= j < end - 1 implies s.drop_first()[j] != ',' by {
            assert(s.drop_first()[j] == s[j + 1]);
        }
        if end < s.len() {
            assert(s.drop_first()[end - 1] == s[end]);
        }
        lemma_before_comma(s.drop_first(), end - 1);
        assert(seq![s[0]] + s.drop_first().subrange(0, end - 1) =~= s.subrange(0, end));
    }
}

/// The four-digit year of a PGN date (`2023.05.01` gives `2023`), or
/// `None` when the trimmed date does not start with four digits.
pub open spec fn year_of(date: Option<Seq<char>>) -> Option<Seq<char>> {
    match date {
        Some(d) => {
            let t = trimmed(d);
            if t.len() >= 4 && is_ascii_digit(t[0]) && is_ascii_digit(t[1]) && is_ascii_digit(t[2])
                && is_ascii_digit(t[3]) {
                Some(t.take(4))
            } else {
                None
            }
        },
        None => None,
    }
}

/// The year of a PGN date (see `year_of`).
pub fn year(date: Option<&str>) -> (r: Option<String>)
    ensures
        match r {
            Some(y) => year_of(
                match date {
                    Some(d) => Some(d@),
                    None => None,
                },
            ) == Some(y@),
            None => year_of(
                match date {
                    Some(d) => Some(d@),
                    None => None,
                },
            ) is None,
        },
{
    match date {
        None => None,
        Some(d) => {
            let t = trim(d);
            let v = chars_of(t.as_str());
            if v.len() >= 4 && '0' <= v[0] && v[0] <= '9' && '0' <= v[1] && v[1] <= '9' && '0'
                <= v[2] && v[2] <= '9' && '0' <= v[3] && v[3] <= '9' {
                proof {
                    assert(v@.subrange(0, 4) =~= t@.take(4));
                }
                Some(string_of(&v, 0, 4))
            } else {
                None
            }
        },
    }
}

/// `White–Black Year` (an en dash between the surnames; the year only when
/// known).
pub open spec fn label_of(
    white: Option<Seq<char>>,
    black: Option<Seq<char>>,
    date: Option<Seq<char>>,
) -> Seq<char> {
    let head = surname_of(white) + "\u{2013}"@ + surname_of(black);
    match year_of(date) {
        Some(y) => head + " "@ + y,
        None => head,
    }
}

/// The view of an optional text.
pub open spec fn opt_view(o: Option<&str>) -> Option<Seq<char>> {
    match o {
        Some(s) => Some(s@),
        None => None,
    }
}

/// A game's compact label for a stats comment (see `label_of`).
pub fn game_label(white: Option<&str>, black: Option<&str>, date: Option<&str>) -> (r: String)
    ensures
        r@ == label_of(opt_view(white), opt_view(black), opt_view(date)),
{
    let mut r = surname(white);
    push_str(&mut r, "\u{2013}");
    let b = surname(black);
    push_str(&mut r, b.as_str());
    match year(date) {
        Some(y) => {
            push_str(&mut r, " ");
            push_str(&mut r, y.as_str());
        },
        None => {},
    }
    r
}

/// A game's result from White's side.
#[derive(PartialEq, Eq, Structural, Debug, Clone, Copy)]
pub enum WhiteResult {
    Win,
    Draw,
    Loss,
}

/// White's result from a PGN result token: `1-0`, `0-1`, `1/2-1/2` or
/// `½-½`, trimmed; anything else (`*`, missing) is unknown.
pub open spec fn white_result_of(result: Option<Seq<char>>) -> Option<WhiteResult> {
    match result {
        Some(r) => {
            let t = trimmed(r);
            if t == "1-0"@ {
                Some(WhiteResult::Win)
            } else if t == "0-1"@ {
                Some(WhiteResult::Loss)
            } else if t == "1/2-1/2"@ || t == "\u{bd}-\u{bd}"@ {
                Some(WhiteResult::Draw)
            } else {
                None
            }
        },
        None => None,
    }
}

/// White's result from a PGN result token (see `white_result_of`).
pub fn white_score(result: Option<&str>) -> (r: Option<WhiteResult>)
    ensures
        r == white_result_of(opt_view(result)),
{
    match result {
        None => None,
        Some(s) => {
            let t = trim(s);
            let t = t.as_str();
            if str_eq(t, "1-0") {
                Some(WhiteResult::Win)
            } else if str_eq(t, "0-1") {
                Some(WhiteResult::Loss)
            } else if str_eq(t, "1/2-1/2") || str_eq(t, "\u{bd}-\u{bd}") {
                Some(WhiteResult::Draw)
            } else {
                None
            }
        },
    }
}

// ---------------------------------------------------------------------------
// Selecting the games to merge
// ---------------------------------------------------------------------------

/// A stored game offered for merging, with what its PGN gave: `mainline` is
/// `None` when it has no PGN or the PGN does not parse.
pub struct CandidateGame {
    pub database_id: i32,
    pub variant: String,
    pub start_fen: Option<String>,
    pub white: Option<String>,
    pub black: Option<String>,
    pub date: Option<String>,
    pub result: Option<String>,
    pub mainline: Option<Vec<String>>,
}

/// One game's contribution to a repertoire: its mainline, label and result.
pub struct MergeGame {
    pub sans: Vec<String>,
    pub label: String,
    pub white_score: Option<WhiteResult>,
}

/// The view of an optional `String`.
pub open spec fn opt_string(o: Option<String>) -> Option<Seq<char>> {
    match o {
        Some(s) => Some(s@),
        None => None,
    }
}

/// Whether a candidate can be merged: it starts from the standard position
/// and has a non-empty mainline.
pub open spec fn mergeable(g: CandidateGame) -> bool {
    &&& standard_start(g.variant@, opt_string(g.start_fen))
    &&& g.mainline matches Some(m) && m@.len() > 0
}

/// The positions, in order, of the mergeable candidates.
pub open spec fn mergeable_indices(games: Seq<CandidateGame>) -> Seq<int>
    decreases games.len(),
{
    if games.len() == 0 {
        Seq::empty()
    } else {
        let rest = mergeable_indices(games.drop_last());
        if mergeable(games.last()) {
            rest.push(games.len() - 1)
        } else {
            rest
        }
    }
}

/// `m` is what candidate `g` contributes.
pub open spec fn contributes(g: CandidateGame, m: MergeGame) -> bool {
    &&& g.mainline matches Some(l) && m.sans@ == l@
    &&& m.label@ == label_of(opt_string(g.white), opt_string(g.black), opt_string(g.date))
    &&& m.white_score == white_result_of(opt_string(g.result))
}

fn clone_strings(v: &Vec<String>) -> (r: Vec<String>)
    ensures
        r@ == v@,
{
    let mut r: Vec<String> = Vec::new();
    let mut i: usize = 0;
    while i < v.len()
        invariant
            i <= v@.len(),
            r@ == v@.take(i as int),
        decreases v.len() - i,
    {
        r.push(v[i].clone());
        proof {
            assert(v@.take(i + 1) =~= v@.take(i as int).push(v@[i as int]));
        }
        i = i + 1;
    }
    proof {
        assert(v@.take(v@.len() as int) =~= v@);
    }
    r
}

fn as_str_opt(o: &Option<String>) -> (r: Option<&str>)
    ensures
        opt_view(r) == opt_string(*o),
{
    match o {
        Some(s) => Some(s.as_str()),
        None => None,
    }
}

proof fn lemma_indices_bounded(games: Seq<CandidateGame>)
    ensures
        forall|k: int|
            0 <= k < mergeable_indices(games).len() ==> 0 <= #[trigger] mergeable_indices(games)[k]
                < games.len(),
    decreases games.len(),
{
    if games.len() > 0 {
        lemma_indices_bounded(games.drop_last());
        let rest = mergeable_indices(games.drop_last());
        let all = mergeable_indices(games);
        assert forall|k: int| 0 <= k < all.len() implies 0 <= #[trigger] all[k] < games.len() by {
            if k < rest.len() {
                assert(all[k] == rest[k]);
            }
        }
    }
}

/// The games a merge folds in, in the given order, with the database of the
/// first one (where a new study is filed): no games at all, or none
/// mergeable (all empty, set up from another position or another variant),
/// is an error.
pub fn merge_sources(games: &Vec<CandidateGame>) -> (r: Result<(Vec<MergeGame>, i32), StudyError>)
    ensures
        games@.len() == 0 ==> (r matches Err(StudyError::InvalidEdit(m)) && m@
            == "no games to merge"@),
        games@.len() > 0 && mergeable_indices(games@).len() == 0 ==> (r matches Err(
            StudyError::InvalidEdit(m),
        ) && m@ == "no mergeable games (all empty, set-up or non-standard)"@),
        games@.len() > 0 && mergeable_indices(games@).len() > 0 ==> (r matches Ok((out, db)) && ({
            let idx = mergeable_indices(games@);
            &&& out@.len() == idx.len()
            &&& forall|k: int| 0 <= k < idx.len() ==> contributes(games@[idx[k]], #[trigger] out@[k])
            &&& db == games@[idx[0]].database_id
        })),
{
    if games.len() == 0 {
        return Err(StudyError::InvalidEdit(copy_str("no games to merge")));
    }
    let mut out: Vec<MergeGame> = Vec::new();
    let mut db: i32 = 0;
    let mut i: usize = 0;
    while i < games.len()
        invariant
            i <= games@.len(),
            out@.len() == mergeable_indices(games@.take(i as int)).len(),
            forall|k: int|
                0 <= k < out@.len() ==> contributes(
                    games@[mergeable_indices(games@.take(i as int))[k]],
                    #[trigger] out@[k],
                ),
            out@.len() > 0 ==> db == games@[mergeable_indices(games@.take(i as int))[0]].database_id,
        decreases games.len() - i,
    {
        let g = &games[i];
        let ghost prev = games@.take(i as int);
        proof {
            assert(games@.take(i + 1).drop_last() =~= prev);
            assert(games@.take(i + 1).last() == games@[i as int]);
            lemma_indices_bounded(prev);
            assert forall|k: int| 0 <= k < mergeable_indices(prev).len() implies #[trigger] games@.take(
                i + 1,
            )[mergeable_indices(prev)[k]] == games@[mergeable_indices(prev)[k]] by {}
        }
        let keep = is_standard_start(g.variant.as_str(), as_str_opt(&g.start_fen)) && match &g.mainline {
            Some(m) => m.len() > 0,
            None => false,
        };
        if keep {
            let sans = match &g.mainline {
                Some(m) => clone_strings(m),
                None => Vec::new(),
            };
            let label = game_label(as_str_opt(&g.white), as_str_opt(&g.black), as_str_opt(&g.date));
            let white_score = white_score(as_str_opt(&g.result));
            if out.len() == 0 {
                db = g.database_id;
            }
            out.push(MergeGame { sans, label, white_score });
        }
        i = i + 1;
    }
    proof {
        assert(games@.take(games@.len() as int) =~= games@);
    }
    if out.len() == 0 {
        return Err(
            StudyError::InvalidEdit(copy_str("no mergeable games (all empty, set-up or non-standard)")),
        );
    }
    Ok((out, db))
}

} // verus!
