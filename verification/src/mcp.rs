//! The MCP endpoint's decisions: tool outcomes and their result envelope,
//! JSON-RPC request framing, method routing, and the gates that keep the
//! anonymous public caller and read-only credentials to the tools they may
//! call.

use vstd::prelude::*;

use crate::identity::CurrentUser;
use crate::json::{
    absent_or_null, field, int_json, int_value, is_text, parse_json, parsed_json, str_of, text, Json,
};
use crate::text::{copy_str, push_str, str_eq, views};

verus! {

// ---------------------------------------------------------------------------
// Tool outcomes
// ---------------------------------------------------------------------------

/// The result of running a tool: free text plus the `isError` flag the MCP
/// envelope carries.
pub struct ToolOutcome {
    pub text: String,
    pub is_error: bool,
}

impl ToolOutcome {
    /// A successful outcome carrying `text`.
    pub fn ok(text: String) -> (r: ToolOutcome)
        ensures
            r.text@ == text@,
            !r.is_error,
    {
        ToolOutcome { text, is_error: false }
    }

    /// A failed outcome carrying `text`.
    pub fn error(text: String) -> (r: ToolOutcome)
        ensures
            r.text@ == text@,
            r.is_error,
    {
        ToolOutcome { text, is_error: true }
    }
}

/// The `tools/call` result envelope for an outcome:
/// `{"content":[{"type":"text","text":…}]}`, plus `"isError": true` on a
/// failure.
pub open spec fn envelope_ok(env: Json, text: Seq<char>, is_error: bool) -> bool {
    &&& env matches Json::Object(members)
    &&& members@.len() == if is_error {
        2int
    } else {
        1int
    }
    &&& members@[0].0@ == "content"@
    &&& members@[0].1 matches Json::Array(items)
    &&& items@.len() == 1
    &&& items@[0] matches Json::Object(entry)
    &&& entry@.len() == 2
    &&& entry@[0].0@ == "text"@
    &&& str_of(Some(entry@[0].1)) == Some(text)
    &&& entry@[1].0@ == "type"@
    &&& str_of(Some(entry@[1].1)) == Some("text"@)
    &&& is_error ==> members@[1].0@ == "isError"@ && members@[1].1 == Json::Bool(true)
}

/// Wraps a tool outcome into the MCP `tools/call` result envelope.
pub fn tool_envelope(outcome: ToolOutcome) -> (env: Json)
    ensures
        envelope_ok(env, outcome.text@, outcome.is_error),
{
    let mut entry: Vec<(String, Json)> = Vec::new();
    entry.push((copy_str("text"), Json::Str(outcome.text)));
    entry.push((copy_str("type"), Json::Str(copy_str("text"))));
    let mut items: Vec<Json> = Vec::new();
    items.push(Json::Object(entry));
    let mut members: Vec<(String, Json)> = Vec::new();
    members.push((copy_str("content"), Json::Array(items)));
    if outcome.is_error {
        members.push((copy_str("isError"), Json::Bool(true)));
    }
    Json::Object(members)
}

// ---------------------------------------------------------------------------
// Who may call which tool
// ---------------------------------------------------------------------------

/// The tools the anonymous public caller may list and call: data reads on
/// global databases only — no engine, no studies or folders, no writes.
pub open spec fn anonymous_tools() -> Seq<Seq<char>> {
    seq![
        "echo"@,
        "list_databases"@,
        "db_list_games"@,
        "db_read_game"@,
        "db_position_report"@,
        "db_reference_games"@,
        "db_export_games"@,
        "search_headers"@,
    ]
}

/// The anonymous allowlist, in its documented order.
pub fn anonymous_allowlist() -> (r: Vec<&'static str>)
    ensures
        r@.map_values(|s: &str| s@) == anonymous_tools(),
{
    let mut r: Vec<&'static str> = Vec::new();
    r.push("echo");
    r.push("list_databases");
    r.push("db_list_games");
    r.push("db_read_game");
    r.push("db_position_report");
    r.push("db_reference_games");
    r.push("db_export_games");
    r.push("search_headers");
    assert(r@.map_values(|s: &str| s@) =~= anonymous_tools());
    r
}

/// Whether the anonymous public caller may call `name`.
pub fn is_anonymous_tool(name: &str) -> (r: bool)
    ensures
        r == anonymous_tools().contains(name@),
{
    let list = anonymous_allowlist();
    let mut i: usize = 0;
    while i < list.len()
        invariant
            list@.map_values(|s: &str| s@) == anonymous_tools(),
            i <= list@.len(),
            forall|j: int| 0 <= j < i ==> anonymous_tools()[j] != name@,
        decreases list.len() - i,
    {
        if str_eq(list[i], name) {
            assert(anonymous_tools()[i as int] == name@);
            return true;
        }
        i = i + 1;
    }
    false
}

/// A JSON-RPC error object.
pub struct JsonRpcError {
    pub code: i32,
    pub message: String,
}

/// `-32001`: the caller may not run this tool.
pub const NOT_PERMITTED: i32 = -32001;
/// `-32602`: bad `tools/call` parameters (missing, or an unknown tool).
pub const INVALID_PARAMS: i32 = -32602;
/// `-32601`: no such method.
pub const METHOD_NOT_FOUND: i32 = -32601;
/// `-32600`: structurally invalid request.
pub const INVALID_REQUEST: i32 = -32600;
/// `-32700`: the body is not JSON.
pub const PARSE_ERROR: i32 = -32700;

/// The permission gate in front of every `tools/call`. `mutating` is whether
/// the tool is one that needs approval (writes or other side effects). The
/// anonymous public caller may call only [`anonymous_tools`]; a read-only
/// credential may call no mutating tool.
pub fn call_gate(user: &CurrentUser, name: &str, mutating: bool) -> (r: Option<JsonRpcError>)
    ensures
        user.public && !anonymous_tools().contains(name@) ==> (r matches Some(e) && e.code
            == NOT_PERMITTED && e.message@ == "Authentication required: `"@ + name@
            + "` is not available to anonymous callers."@),
        !(user.public && !anonymous_tools().contains(name@)) && user.read_only && mutating ==> (
        r matches Some(e) && e.code == NOT_PERMITTED && e.message@
            == "This token is read-only and cannot call `"@ + name@ + "`."@),
        !(user.public && !anonymous_tools().contains(name@)) && !(user.read_only && mutating)
            ==> r is None,
{
    if user.public && !is_anonymous_tool(name) {
        let mut m = String::new();
        push_str(&mut m, "Authentication required: `");
        push_str(&mut m, name);
        push_str(&mut m, "` is not available to anonymous callers.");
        return Some(JsonRpcError { code: NOT_PERMITTED, message: m });
    }
    if user.read_only && mutating {
        let mut m = String::new();
        push_str(&mut m, "This token is read-only and cannot call `");
        push_str(&mut m, name);
        push_str(&mut m, "`.");
        return Some(JsonRpcError { code: NOT_PERMITTED, message: m });
    }
    None
}

/// The tool name a `tools/call` asks for: `params.name` when it is a string,
/// else the empty name. Missing `params` is a `-32602` error.
pub fn tool_call_name(params: &Option<Json>) -> (r: Result<String, JsonRpcError>)
    ensures
        params is None ==> (r matches Err(e) && e.code == INVALID_PARAMS && e.message@
            == "Missing params"@),
        params matches Some(p) ==> (r matches Ok(n) && n@ == match str_of(field(*p, "name"@)) {
            Some(s) => s,
            None => Seq::empty(),
        }),
{
    match params {
        None => Err(JsonRpcError { code: INVALID_PARAMS, message: copy_str("Missing params") }),
        Some(p) => match p.get("name") {
            Some(Json::Str(s)) => Ok(copy_str(s.as_str())),
            _ => Ok(String::new()),
        },
    }
}

/// The error for a `tools/call` naming no registered tool.
pub fn unknown_tool(name: &str) -> (e: JsonRpcError)
    ensures
        e.code == INVALID_PARAMS,
        e.message@ == "Unknown tool: "@ + name@,
{
    let mut m = String::new();
    push_str(&mut m, "Unknown tool: ");
    push_str(&mut m, name);
    JsonRpcError { code: INVALID_PARAMS, message: m }
}

// ---------------------------------------------------------------------------
// tools/list filtering
// ---------------------------------------------------------------------------

/// Whether a `tools/list` entry survives a filter over `names`: it must carry
/// a string `name`, listed in `names` exactly when `keep_listed`.
pub open spec fn keeps(t: Json, names: Seq<Seq<char>>, keep_listed: bool) -> bool {
    match str_of(field(t, "name"@)) {
        Some(n) => names.contains(n) == keep_listed,
        None => false,
    }
}

/// The entries of `ts` that survive the filter, in order.
pub open spec fn kept(ts: Seq<Json>, names: Seq<Seq<char>>, keep_listed: bool) -> Seq<Json>
    decreases ts.len(),
{
    if ts.len() == 0 {
        Seq::empty()
    } else if keeps(ts.last(), names, keep_listed) {
        kept(ts.drop_last(), names, keep_listed).push(ts.last())
    } else {
        kept(ts.drop_last(), names, keep_listed)
    }
}

/// Index of the first member keyed `key` (the member count when none is).
pub open spec fn first_key(ms: Seq<(String, Json)>, key: Seq<char>) -> int
    decreases ms.len(),
{
    if ms.len() == 0 {
        0
    } else if ms[0].0@ == key {
        0
    } else {
        1 + first_key(ms.drop_first(), key)
    }
}

/// Member `j` of a filtered `tools/list` payload, given the member before.
pub open spec fn member_filtered(
    before: (String, Json),
    after: (String, Json),
    target: bool,
    names: Seq<Seq<char>>,
    keep_listed: bool,
) -> bool {
    &&& after.0@ == before.0@
    &&& match before.1 {
        Json::Array(ts) => if target {
            after.1 matches Json::Array(ts2) && ts2@ == kept(ts@, names, keep_listed)
        } else {
            after == before
        },
        _ => after == before,
    }
}

/// `after` is the `tools/list` payload `before` with its `tools` array
/// filtered to the entries that [`keeps`] accepts; nothing else changes.
pub open spec fn tools_filtered(
    before: Json,
    after: Json,
    names: Seq<Seq<char>>,
    keep_listed: bool,
) -> bool {
    match before {
        Json::Object(ms) => {
            &&& after matches Json::Object(ms2)
            &&& ms2@.len() == ms@.len()
            &&& forall|j: int|
                #![trigger ms2@[j]]
                0 <= j < ms@.len() ==> member_filtered(
                    ms@[j],
                    ms2@[j],
                    j == first_key(ms@, "tools"@),
                    names,
                    keep_listed,
                )
        },
        _ => after == before,
    }
}

proof fn lemma_first_key_nonneg(ms: Seq<(String, Json)>, key: Seq<char>)
    ensures
        first_key(ms, key) >= 0,
    decreases ms.len(),
{
    if ms.len() > 0 {
        lemma_first_key_nonneg(ms.drop_first(), key);
    }
}

proof fn lemma_first_key(ms: Seq<(String, Json)>, key: Seq<char>, i: int)
    requires
        0 <= i < ms.len(),
        forall|k: int| 0 <= k < i ==> ms[k].0@ != key,
    ensures
        (first_key(ms, key) == i) == (ms[i].0@ == key),
        ms[i].0@ != key ==> first_key(ms, key) > i,
    decreases i,
{
    lemma_first_key_nonneg(ms, key);
    if i > 0 {
        assert(ms[0].0@ != key);
        let d = ms.drop_first();
        assert forall|k: int| 0 <= k < i - 1 implies d[k].0@ != key by {
            assert(d[k] == ms[k + 1]);
        }
        lemma_first_key(d, key, i - 1);
    } else {
        if ms[0].0@ != key {
            lemma_first_key_nonneg(ms.drop_first(), key);
        }
    }
}

fn name_listed(t: &Json, names: &Vec<String>) -> (r: Option<bool>)
    ensures
        r matches Some(b) ==> (str_of(field(*t, "name"@)) matches Some(n) && b == views(names@).contains(n)),
        r is None ==> str_of(field(*t, "name"@)) is None,
{
    let ghost ns = views(names@);
    match t.get("name") {
        Some(Json::Str(n)) => {
            let mut i: usize = 0;
            while i < names.len()
                invariant
                    ns == views(names@),
                    str_of(field(*t, "name"@)) == Some(n@),
                    i <= names@.len(),
                    forall|j: int| 0 <= j < i ==> names@[j]@ != n@,
                decreases names.len() - i,
            {
                if str_eq(names[i].as_str(), n.as_str()) {
                    assert(ns[i as int] == names@[i as int]@);
                    assert(ns[i as int] == n@);
                    assert(ns.contains(n@));
                    return Some(true);
                }
                i = i + 1;
            }
            assert(!ns.contains(n@)) by {
                if ns.contains(n@) {
                    let j = choose|j: int| 0 <= j < ns.len() && #[trigger] ns[j] == n@;
                    assert(names@[j]@ == n@);
                }
            }
            Some(false)
        },
        _ => None,
    }
}

fn filter_entries(ts: Vec<Json>, names: &Vec<String>, keep_listed: bool) -> (r: Vec<Json>)
    ensures
        r@ == kept(ts@, views(names@), keep_listed),
{
    let ghost orig = ts@;
    let ghost ns = views(names@);
    let mut rest = ts;
    let mut out: Vec<Json> = Vec::new();
    let mut i: usize = 0;
    let total = rest.len();
    assert(orig.skip(0) == orig);
    while rest.len() > 0
        invariant
            i <= orig.len(),
            rest@ == orig.skip(i as int),
            rest@.len() == orig.len() - i,
            orig.len() == total,
            out@ == kept(orig.take(i as int), ns, keep_listed),
            ns == views(names@),
        decreases rest.len(),
    {
        let t = rest.remove(0);
        assert(t == orig[i as int]);
        assert(orig.take(i + 1).drop_last() == orig.take(i as int));
        let keep = match name_listed(&t, names) {
            Some(b) => b == keep_listed,
            None => false,
        };
        if keep {
            out.push(t);
        }
        assert(orig.skip(i as int).drop_first() == orig.skip(i + 1));
        i = i + 1;
    }
    assert(orig.take(orig.len() as int) == orig);
    out
}

/// Filter a `tools/list` payload (`{"tools": [...]}`) in place, keeping the
/// entries whose `name` is a string listed in `names` exactly when
/// `keep_listed`. A payload without a `tools` array is left unchanged.
pub fn retain_named_tools(list: &mut Json, names: &Vec<String>, keep_listed: bool)
    ensures
        tools_filtered(*old(list), *final(list), views(names@), keep_listed),
{
    let ghost ns = views(names@);
    let mut taken = Json::Null;
    std::mem::swap(&mut taken, list);
    match taken {
        Json::Object(members) => {
            let ghost orig = members@;
            let mut before: Vec<(String, Json)> = Vec::new();
            let mut rest = members;
            let total = rest.len();
            let mut i: usize = 0;
            let mut found = false;
            assert(orig.skip(0) == orig);
            proof {
                lemma_first_key_nonneg(orig, "tools"@);
            }
            while rest.len() > 0
                invariant
                    i <= orig.len(),
                    rest@ == orig.skip(i as int),
                    rest@.len() == orig.len() - i,
                    orig.len() == total,
                    ns == views(names@),
                    before@.len() == i,
                    found == (first_key(orig, "tools"@) < i),
                    !found ==> forall|k: int| 0 <= k < i ==> orig[k].0@ != "tools"@,
                    forall|j: int|
                        #![trigger before@[j]]
                        0 <= j < i ==> member_filtered(
                            orig[j],
                            before@[j],
                            j == first_key(orig, "tools"@),
                            ns,
                            keep_listed,
                        ),
                decreases rest.len(),
            {
                let (k, v) = rest.remove(0);
                assert(orig.skip(i as int)[0] == orig[i as int]);
                assert((k, v) == orig[i as int]);
                proof {
                    if !found {
                        lemma_first_key(orig, "tools"@, i as int);
                    }
                }
                let ghost target = i == first_key(orig, "tools"@);
                let is_tools = !found && str_eq(k.as_str(), "tools");
                let entry = if is_tools {
                    found = true;
                    match v {
                        Json::Array(ts) => {
                            let filtered = filter_entries(ts, names, keep_listed);
                            (k, Json::Array(filtered))
                        },
                        other => (k, other),
                    }
                } else {
                    (k, v)
                };
                let ghost prev = before@;
                let ghost e = entry;
                proof {
                    assert(member_filtered(
                        orig[i as int],
                        e,
                        i == first_key(orig, "tools"@),
                        ns,
                        keep_listed,
                    ));
                }
                before.push(entry);
                assert(forall|j: int| 0 <= j < i ==> before@[j] == prev[j]);
                assert(orig.skip(i as int).drop_first() == orig.skip(i + 1));
                i = i + 1;
            }
            *list = Json::Object(before);
        },
        other => {
            *list = other;
        },
    }
}

/// Filter a `tools/list` payload down to [`anonymous_tools`].
pub fn restrict_to_allowlist(list: &mut Json)
    ensures
        tools_filtered(*old(list), *final(list), anonymous_tools(), true),
{
    let allow = anonymous_allowlist();
    let mut names: Vec<String> = Vec::new();
    let mut i: usize = 0;
    while i < allow.len()
        invariant
            i <= allow@.len(),
            names@.len() == i,
            allow@.map_values(|s: &str| s@) == anonymous_tools(),
            forall|j: int| 0 <= j < i ==> names@[j]@ == allow@[j]@,
        decreases allow.len() - i,
    {
        names.push(copy_str(allow[i]));
        i = i + 1;
    }
    assert(views(names@) =~= allow@.map_values(|s: &str| s@));
    retain_named_tools(list, &names, true);
}

/// Filter a `tools/list` payload down to the tools a read-only caller may
/// invoke: those not named in `mutating`.
pub fn restrict_to_non_gated(list: &mut Json, mutating: &Vec<String>)
    ensures
        tools_filtered(*old(list), *final(list), views(mutating@), false),
{
    retain_named_tools(list, mutating, false);
}

/// An anonymous caller never sees a tool it cannot call: every entry the
/// anonymous filter keeps is named, and its name passes the anonymous gate.
/// Likewise every entry the read-only filter keeps names a tool outside the
/// mutating set, which the read-only gate lets through.
pub proof fn listed_tools_are_callable(t: Json, mutating: Seq<Seq<char>>)
    ensures
        keeps(t, anonymous_tools(), true) ==> (str_of(field(t, "name"@)) matches Some(n)
            && anonymous_tools().contains(n)),
        keeps(t, mutating, false) ==> (str_of(field(t, "name"@)) matches Some(n) && !mutating.contains(
            n,
        )),
{
}

// ---------------------------------------------------------------------------
// JSON-RPC framing
// ---------------------------------------------------------------------------

/// How a request body reads as a JSON-RPC 2.0 request.
pub enum RequestCheck {
    /// Not JSON at all: answered with `-32700`.
    ParseError,
    /// JSON, but not a valid request: answered with `-32600`, echoing the
    /// request's `id` when `echo_id`.
    Invalid { echo_id: bool },
    /// A valid request for `method`; `has_params` when `params` is present
    /// and not `null`; the `id` is echoed when `echo_id`.
    Valid { method: String, echo_id: bool, has_params: bool },
}

/// A usable request id: a string, a number, or `null`.
pub open spec fn scalar_id(v: Option<Json>) -> bool {
    match v {
        Some(Json::Str(_)) => true,
        Some(Json::UInt(_)) => true,
        Some(Json::NegInt(_)) => true,
        Some(Json::Fractional(_)) => true,
        Some(Json::Null) => true,
        _ => false,
    }
}

/// Whether the answer to a request echoes the request's `id`.
pub open spec fn echoes_id(r: RequestCheck) -> bool {
    match r {
        RequestCheck::ParseError => false,
        RequestCheck::Invalid { echo_id } => echo_id,
        RequestCheck::Valid { echo_id, .. } => echo_id,
    }
}

/// A request is answered with its own `id` whenever that id is a string, a
/// number (whole or not) or `null`, valid request or not, so the client can
/// match the answer to its request; an id that is a boolean, an array or an
/// object is not echoed, and neither is a missing one.
pub proof fn request_ids_are_echoed(value: Json, r: RequestCheck)
    requires
        request_shape_ok(value, r),
    ensures
        field(value, "id"@) matches Some(Json::Str(_)) ==> echoes_id(r),
        field(value, "id"@) matches Some(Json::UInt(_)) ==> echoes_id(r),
        field(value, "id"@) matches Some(Json::NegInt(_)) ==> echoes_id(r),
        field(value, "id"@) matches Some(Json::Fractional(_)) ==> echoes_id(r),
        field(value, "id"@) matches Some(Json::Null) ==> echoes_id(r),
        field(value, "id"@) matches Some(Json::Bool(_)) ==> !echoes_id(r),
        field(value, "id"@) matches Some(Json::Array(_)) ==> !echoes_id(r),
        field(value, "id"@) matches Some(Json::Object(_)) ==> !echoes_id(r),
        field(value, "id"@) is None ==> !echoes_id(r),
        r !is ParseError,
{
}

/// The reading of a parsed JSON value as a JSON-RPC 2.0 request.
pub open spec fn request_shape_ok(value: Json, r: RequestCheck) -> bool {
    let echo = scalar_id(field(value, "id"@));
    if str_of(field(value, "jsonrpc"@)) != Some("2.0"@) {
        r == RequestCheck::Invalid { echo_id: echo }
    } else {
        match str_of(field(value, "method"@)) {
            None => r == RequestCheck::Invalid { echo_id: echo },
            Some(m) => r matches RequestCheck::Valid { method, echo_id, has_params } && method@
                == m && echo_id == echo && has_params == !absent_or_null(field(value, "params"@)),
        }
    }
}

/// Reads a parsed JSON value as a JSON-RPC 2.0 request: `jsonrpc` must be
/// `"2.0"` and `method` a string; an explicit `null` `params` counts as
/// absent; a non-scalar `id` is not echoed.
pub fn check_request(value: &Json) -> (r: RequestCheck)
    ensures
        request_shape_ok(*value, r),
{
    let echo = match value.get("id") {
        Some(Json::Str(_)) => true,
        Some(Json::UInt(_)) => true,
        Some(Json::NegInt(_)) => true,
        Some(Json::Fractional(_)) => true,
        Some(Json::Null) => true,
        _ => false,
    };
    let version_ok = match value.get("jsonrpc") {
        Some(Json::Str(v)) => str_eq(v.as_str(), "2.0"),
        _ => false,
    };
    if !version_ok {
        return RequestCheck::Invalid { echo_id: echo };
    }
    match value.get("method") {
        Some(Json::Str(m)) => {
            let has_params = match value.get("params") {
                None => false,
                Some(Json::Null) => false,
                _ => true,
            };
            RequestCheck::Valid { method: copy_str(m.as_str()), echo_id: echo, has_params }
        },
        _ => RequestCheck::Invalid { echo_id: echo },
    }
}

/// Parses a raw request body and reads it as a JSON-RPC 2.0 request.
pub fn parse_request(body: &[u8]) -> (r: RequestCheck)
    ensures
        match parsed_json(body@) {
            None => r is ParseError,
            Some(v) => request_shape_ok(v, r),
        },
{
    match parse_json(body) {
        None => RequestCheck::ParseError,
        Some(v) => check_request(&v),
    }
}

/// The error answering a malformed request, if any.
pub fn request_error(check: &RequestCheck) -> (r: Option<JsonRpcError>)
    ensures
        check is ParseError ==> (r matches Some(e) && e.code == PARSE_ERROR && e.message@
            == "Parse error"@),
        check is Invalid ==> (r matches Some(e) && e.code == INVALID_REQUEST && e.message@
            == "Invalid Request"@),
        check is Valid ==> r is None,
{
    match check {
        RequestCheck::ParseError => Some(
            JsonRpcError { code: PARSE_ERROR, message: copy_str("Parse error") },
        ),
        RequestCheck::Invalid { .. } => Some(
            JsonRpcError { code: INVALID_REQUEST, message: copy_str("Invalid Request") },
        ),
        RequestCheck::Valid { .. } => None,
    }
}

/// What the endpoint does with a request's method.
pub enum Route {
    /// `notifications/initialized`: acknowledged with `202` and no body.
    Initialized,
    Initialize,
    ToolsList,
    ToolsCall,
    /// Any other method: `-32601`.
    NotFound,
}

/// Routes a JSON-RPC method.
pub fn route_method(method: &str) -> (r: Route)
    ensures
        method@ == "notifications/initialized"@ ==> r is Initialized,
        method@ == "initialize"@ ==> r is Initialize,
        method@ == "tools/list"@ ==> r is ToolsList,
        method@ == "tools/call"@ ==> r is ToolsCall,
        method@ != "notifications/initialized"@ && method@ != "initialize"@ && method@
            != "tools/list"@ && method@ != "tools/call"@ ==> r is NotFound,
{
    proof {
        reveal_strlit("notifications/initialized");
        reveal_strlit("initialize");
        reveal_strlit("tools/list");
        reveal_strlit("tools/call");
        assert("initialize"@.len() != "notifications/initialized"@.len());
        assert("tools/list"@.len() != "notifications/initialized"@.len());
        assert("tools/call"@.len() != "notifications/initialized"@.len());
        assert("tools/list"@[0] != "initialize"@[0]);
        assert("tools/call"@[0] != "initialize"@[0]);
        assert("tools/list"@[6] != "tools/call"@[6]);
    }
    if str_eq(method, "notifications/initialized") {
        Route::Initialized
    } else if str_eq(method, "initialize") {
        Route::Initialize
    } else if str_eq(method, "tools/list") {
        Route::ToolsList
    } else if str_eq(method, "tools/call") {
        Route::ToolsCall
    } else {
        Route::NotFound
    }
}

/// The `-32601` error for an unknown method.
pub fn method_not_found(method: &str) -> (e: JsonRpcError)
    ensures
        e.code == METHOD_NOT_FOUND,
        e.message@ == "Method not found: "@ + method@,
{
    let mut m = String::new();
    push_str(&mut m, "Method not found: ");
    push_str(&mut m, method);
    JsonRpcError { code: METHOD_NOT_FOUND, message: m }
}

// ---------------------------------------------------------------------------
// JSON-RPC responses
// ---------------------------------------------------------------------------

/// The members every response starts with: the protocol tag and, when the
/// request's id is known, the id.
pub open spec fn response_head(m: Seq<(String, Json)>, id: Option<Json>) -> bool {
    &&& m[0].0@ == "jsonrpc"@ && is_text(m[0].1, "2.0"@)
    &&& match id {
        Some(v) => m[1].0@ == "id"@ && m[1].1 == v,
        None => true,
    }
}

/// The number of members `response_head` takes.
pub open spec fn head_len(id: Option<Json>) -> int {
    if id is Some {
        2
    } else {
        1
    }
}

fn push_head(m: &mut Vec<(String, Json)>, id: Option<Json>)
    requires
        old(m)@.len() == 0,
    ensures
        final(m)@.len() == head_len(id),
        response_head(final(m)@, id),
{
    m.push((copy_str("jsonrpc"), text("2.0")));
    if let Some(v) = id {
        m.push((copy_str("id"), v));
    }
}

/// A successful JSON-RPC response carrying `result`.
pub fn rpc_success(id: Option<Json>, result: Json) -> (r: Json)
    ensures
        r matches Json::Object(m) && m@.len() == head_len(id) + 1 && response_head(m@, id)
            && m@[head_len(id)].0@ == "result"@ && m@[head_len(id)].1 == result,
{
    let mut m: Vec<(String, Json)> = Vec::new();
    push_head(&mut m, id);
    m.push((copy_str("result"), result));
    Json::Object(m)
}

/// A JSON-RPC error response.
pub fn rpc_error(id: Option<Json>, e: JsonRpcError) -> (r: Json)
    ensures
        r matches Json::Object(m) && m@.len() == head_len(id) + 1 && response_head(m@, id)
            && m@[head_len(id)].0@ == "error"@ && (m@[head_len(id)].1 matches Json::Object(b)
            && b@.len() == 2 && b@[0].0@ == "code"@ && b@[0].1 == int_json(e.code as int)
            && b@[1].0@ == "message"@ && is_text(b@[1].1, e.message@)),
{
    let mut body: Vec<(String, Json)> = Vec::new();
    body.push((copy_str("code"), int_value(e.code as i64)));
    body.push((copy_str("message"), Json::Str(e.message)));
    let mut m: Vec<(String, Json)> = Vec::new();
    push_head(&mut m, id);
    m.push((copy_str("error"), Json::Object(body)));
    Json::Object(m)
}

/// The JSON-RPC error sent with a `401`: code `-32000`, `Unauthorized`, no
/// id.
pub fn unauthorized_error() -> (e: JsonRpcError)
    ensures
        e.code == -32000,
        e.message@ == "Unauthorized"@,
{
    JsonRpcError { code: -32000, message: copy_str("Unauthorized") }
}

/// `j` is the empty JSON object.
pub open spec fn empty_object(j: Json) -> bool {
    j matches Json::Object(t) && t@.len() == 0
}

/// The MCP protocol revision this server speaks.
pub open spec fn protocol_version() -> Seq<char> {
    "2025-03-26"@
}

/// The `initialize` instructions: the tool surface and the board
/// directives studies render.
pub const INSTRUCTIONS: &'static str = "# chess-base — MCP Integration\n\nSelf-hosted ChessBase replacement. Collect, search and study chess games with engine analysis and AI-assisted studies. This endpoint exposes chess tooling over JSON-RPC; the available tools depend on what is registered (call `tools/list`).\n\n## Anonymous access\n\nA request with no `Authorization` header is served as an anonymous public caller: data reads only (`list_databases`, `db_list_games`, `db_read_game`, `db_position_report`, `db_reference_games`, `db_export_games`, `search_headers`, `echo`), scoped to global (admin-managed) databases only — no engine, no studies, no writes. `tools/list` reflects this reduced set; any other tool returns an authentication-required error. Sign in (OAuth or a service token) for your own databases plus write access.\n\n## Tool surface (Epic 9)\n\n- **Interactive analysis** — `analyse_position` is the one-shot \"explain this position\" entry point: it bundles engine eval, the database report and factual feature tags for a single FEN so an explanation cites tool output, not guesses. `analyse_game` is its whole-game counterpart: walk the engine over a PGN for a per-ply eval + best-move + classification review. The tools below are the same sources unbundled, for drilling in further.\n- **Engine** — request Stockfish/Lc0 evaluation of a position (best move, score, principal variation) to use as ground truth when annotating.\n- **Database** — `list_databases` discovers the collections you can see (with game counts) and the `database_id`s the study tools need; `db_list_games` / `db_read_game` page through and read individual games; `db_position_report` / `db_reference_games` search by position (64-bit Zobrist hash).\n- **Study preprocessing** — engine + DB grounded *data* for study building, with no language model inside the tool (you are the model — annotate the output yourself, then persist with the study tools): `opening_tree` builds a pruned, eval- and stats-tagged variation tree (the opening skeleton); `danger_map` walks a repertoire spine PGN into an engine-adjudicated danger tree (Weapon / Caution / Off-book roles); `position_concepts` classifies a position's pawn structure and key squares.\n- **Studies** — create studies and edit their move-trees: `study_import_pgn` builds a whole study from PGN in one call, or `study_create` + `study_add_move` (SAN or UCI, with optional inline comment/NAG) build one move at a time; `study_get` reads an existing study's tree (with node ids) so you can `study_annotate` it; `study_export` emits re-importable PGN. Every edit is scoped to the authenticated caller: you may only mutate your own studies (global studies require admin).\n\n## Board directives\n\nWhen writing study text, embed positions and games with these directives:\n\n- `<fen>FEN string</fen>` — render a static board from an inline FEN.\n- `<pgn move=\"N\">PGN moves</pgn>` — render a playable game from inline PGN, opened at half-move N.\n\nAlways ground evaluations and variations in the engine and database tools rather than asserting them unverified.\n";

/// The `initialize` instructions, as text.
pub open spec fn instructions() -> Seq<char> {
    INSTRUCTIONS@
}

/// The `initialize` result: protocol revision, tool capability, server name
/// and `version`, and the instructions.
pub fn initialize_result(version: &str) -> (r: Json)
    ensures
        r matches Json::Object(m) && m@.len() == 4 && m@[0].0@ == "protocolVersion"@ && is_text(
            m@[0].1,
            protocol_version(),
        ) && m@[1].0@ == "capabilities"@ && (m@[1].1 matches Json::Object(c) && c@.len() == 1
            && c@[0].0@ == "tools"@ && empty_object(c@[0].1))
            && m@[2].0@ == "serverInfo"@ && (m@[2].1 matches Json::Object(i) && i@.len() == 2
            && i@[0].0@ == "name"@ && is_text(i@[0].1, "chess-base"@) && i@[1].0@ == "version"@
            && is_text(i@[1].1, version@)) && m@[3].0@ == "instructions"@ && is_text(
            m@[3].1,
            instructions(),
        ),
{
    let mut caps: Vec<(String, Json)> = Vec::new();
    caps.push((copy_str("tools"), Json::Object(Vec::new())));
    let mut info: Vec<(String, Json)> = Vec::new();
    info.push((copy_str("name"), text("chess-base")));
    info.push((copy_str("version"), text(version)));
    let mut m: Vec<(String, Json)> = Vec::new();
    m.push((copy_str("protocolVersion"), text("2025-03-26")));
    m.push((copy_str("capabilities"), Json::Object(caps)));
    m.push((copy_str("serverInfo"), Json::Object(info)));
    m.push((copy_str("instructions"), text(INSTRUCTIONS)));
    Json::Object(m)
}

/// The `echo` tool: its `text` argument back, or an error without one.
pub fn echo(args: &Json) -> (r: ToolOutcome)
    ensures
        match str_of(field(*args, "text"@)) {
            Some(t) => !r.is_error && r.text@ == t,
            None => r.is_error && r.text@ == "Invalid arguments: missing string field `text`"@,
        },
{
    match crate::json::get_str(args, "text") {
        Some(t) => ToolOutcome::ok(t),
        None => ToolOutcome::error(copy_str("Invalid arguments: missing string field `text`")),
    }
}

// ---------------------------------------------------------------------------
// tools/call dispatch
// ---------------------------------------------------------------------------

fn name_in(name: &str, names: &Vec<String>) -> (r: bool)
    ensures
        r == views(names@).contains(name@),
{
    let ghost ns = views(names@);
    let mut i: usize = 0;
    while i < names.len()
        invariant
            ns == views(names@),
            i <= names@.len(),
            forall|j: int| 0 <= j < i ==> names@[j]@ != name@,
        decreases names.len() - i,
    {
        if str_eq(names[i].as_str(), name) {
            assert(ns[i as int] == name@);
            return true;
        }
        i = i + 1;
    }
    assert(!ns.contains(name@)) by {
        if ns.contains(name@) {
            let j = choose|j: int| 0 <= j < ns.len() && #[trigger] ns[j] == name@;
            assert(names@[j]@ == name@);
        }
    }
    false
}

/// The tool a `tools/call` names (see [`tool_call_name`]).
pub open spec fn called_name(p: Json) -> Seq<char> {
    match str_of(field(p, "name"@)) {
        Some(s) => s,
        None => Seq::empty(),
    }
}

/// Decides a `tools/call`, in the order the endpoint checks it: `params`
/// must be present; the named tool must pass the caller's gate
/// ([`call_gate`], with `mutating` the tools that change data); it must be
/// one of the `registered` tools. The result is the tool to invoke.
pub fn tools_call_step(
    user: &CurrentUser,
    params: &Option<Json>,
    mutating: &Vec<String>,
    registered: &Vec<String>,
) -> (r: Result<String, JsonRpcError>)
    ensures
        params is None ==> (r matches Err(e) && e.code == INVALID_PARAMS && e.message@
            == "Missing params"@),
        params matches Some(p) ==> {
            let name = called_name(*p);
            let is_mutating = views(mutating@).contains(name);
            if user.public && !anonymous_tools().contains(name) {
                r matches Err(e) && e.code == NOT_PERMITTED && e.message@
                    == "Authentication required: `"@ + name + "` is not available to anonymous callers."@
            } else if user.read_only && is_mutating {
                r matches Err(e) && e.code == NOT_PERMITTED && e.message@
                    == "This token is read-only and cannot call `"@ + name + "`."@
            } else if !views(registered@).contains(name) {
                r matches Err(e) && e.code == INVALID_PARAMS && e.message@ == "Unknown tool: "@ + name
            } else {
                r matches Ok(n) && n@ == name
            }
        },
{
    let name = match tool_call_name(params) {
        Ok(n) => n,
        Err(e) => return Err(e),
    };
    let is_mutating = name_in(name.as_str(), mutating);
    if let Some(e) = call_gate(user, name.as_str(), is_mutating) {
        return Err(e);
    }
    if !name_in(name.as_str(), registered) {
        return Err(unknown_tool(name.as_str()));
    }
    Ok(name)
}

} // verus!
