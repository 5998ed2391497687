//! Small read-only documents the server answers with: the health probe and
//! the folder listing.

use vstd::prelude::*;

use crate::identity::Mode;
use crate::json::{int_json, int_value, is_text, text, Json};
use crate::oauth::key_at;
use crate::text::copy_str;

verus! {

/// The name the server reports in its health probe.
pub open spec fn mode_name(mode: Mode) -> Seq<char> {
    match mode {
        Mode::Local => "local"@,
        Mode::Server => "server"@,
    }
}

/// The health probe: `{status, name, version, mode, engine, llm}`, the last
/// two telling the client whether engine review and the study generator are
/// available.
pub fn health_body(mode: Mode, version: &str, has_engine: bool, has_llm: bool) -> (r: Json)
    ensures
        r matches Json::Object(m) && m@.len() == 6 && key_at(m@, 0, "status"@) && is_text(
            m@[0].1,
            "ok"@,
        ) && key_at(m@, 1, "name"@) && is_text(m@[1].1, "chess-base"@) && key_at(
            m@,
            2,
            "version"@,
        ) && is_text(m@[2].1, version@) && key_at(m@, 3, "mode"@) && is_text(
            m@[3].1,
            mode_name(mode),
        ) && key_at(m@, 4, "engine"@) && m@[4].1 == Json::Bool(has_engine) && key_at(
            m@,
            5,
            "llm"@,
        ) && m@[5].1 == Json::Bool(has_llm),
{
    let mut m: Vec<(String, Json)> = Vec::new();
    m.push((copy_str("status"), text("ok")));
    m.push((copy_str("name"), text("chess-base")));
    m.push((copy_str("version"), text(version)));
    let mode_text = match mode {
        Mode::Local => text("local"),
        Mode::Server => text("server"),
    };
    m.push((copy_str("mode"), mode_text));
    m.push((copy_str("engine"), Json::Bool(has_engine)));
    m.push((copy_str("llm"), Json::Bool(has_llm)));
    Json::Object(m)
}

/// A folder row as the listing reads it. A folder without an owner is
/// global.
pub struct FolderRow {
    pub id: i32,
    pub owner_id: Option<String>,
    pub parent_id: Option<i32>,
    pub name: String,
}

/// An optional id as JSON: the number, or `null`.
pub open spec fn opt_id_json(o: Option<i32>) -> Json {
    match o {
        Some(n) => int_json(n as int),
        None => Json::Null,
    }
}

/// An optional string as JSON: the string, or `null`.
pub open spec fn is_opt_text(j: Json, o: Option<String>) -> bool {
    match o {
        Some(s) => is_text(j, s@),
        None => j == Json::Null,
    }
}

/// `v` is the listing entry of `row`:
/// `{id, owner_id, parent_id, name, global}`.
pub open spec fn is_folder_view(v: Json, row: FolderRow) -> bool {
    v matches Json::Object(m) && m@.len() == 5 && key_at(m@, 0, "id"@) && m@[0].1 == int_json(
        row.id as int,
    ) && key_at(m@, 1, "owner_id"@) && is_opt_text(m@[1].1, row.owner_id) && key_at(
        m@,
        2,
        "parent_id"@,
    ) && m@[2].1 == opt_id_json(row.parent_id) && key_at(m@, 3, "name"@) && is_text(
        m@[3].1,
        row.name@,
    ) && key_at(m@, 4, "global"@) && m@[4].1 == Json::Bool(row.owner_id is None)
}

fn opt_id(o: Option<i32>) -> (r: Json)
    ensures
        r == opt_id_json(o),
{
    match o {
        Some(n) => int_value(n as i64),
        None => Json::Null,
    }
}

/// The listing entry of one folder.
pub fn folder_view(row: &FolderRow) -> (r: Json)
    ensures
        is_folder_view(r, *row),
{
    let mut m: Vec<(String, Json)> = Vec::new();
    m.push((copy_str("id"), int_value(row.id as i64)));
    let owner = match &row.owner_id {
        Some(o) => text(o.as_str()),
        None => Json::Null,
    };
    m.push((copy_str("owner_id"), owner));
    m.push((copy_str("parent_id"), opt_id(row.parent_id)));
    m.push((copy_str("name"), text(row.name.as_str())));
    m.push((copy_str("global"), Json::Bool(row.owner_id.is_none())));
    Json::Object(m)
}

/// The folder listing: one entry per row, in the rows' order.
pub fn folder_views(rows: &Vec<FolderRow>) -> (r: Vec<Json>)
    ensures
        r@.len() == rows@.len(),
        forall|i: int| 0 <= i < rows@.len() ==> #[trigger] is_folder_view(r@[i], rows@[i]),
{
    let mut out: Vec<Json> = Vec::new();
    let mut i: usize = 0;
    while i < rows.len()
        invariant
            i <= rows@.len(),
            out@.len() == i,
            forall|j: int| 0 <= j < i ==> #[trigger] is_folder_view(out@[j], rows@[j]),
        decreases rows.len() - i,
    {
        out.push(folder_view(&rows[i]));
        i = i + 1;
    }
    out
}

} // verus!
