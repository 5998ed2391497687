//! The OAuth 2.1 authorization server's decisions (public clients, PKCE
//! only): authorization-request validation, redirect construction, the
//! consent screen (page, viewer check, approve/deny), the token endpoint's
//! code-exchange checks and the refresh-token rotation / reuse rules.
//! Storage and clocks stay with the caller, which hands in rows and the
//! current time.

use vstd::prelude::*;

use crate::identity::CurrentUser;
use crate::json::{
    encode_string_list, encoded_string_list, int_json, int_value, is_text, is_texts,
    parse_string_list, parsed_string_list, text, texts, Json,
};
use crate::text::{
    contains_char, copy_str, encode, html_escape, html_escaped, percent_encoded, push_char,
    push_str, str_eq,
};

verus! {

/// An OAuth error response (RFC 6749 §5.2): `Bad` is a `400` with an error
/// code and description; `Server` is a `500` without detail.
pub enum OAuthError {
    Bad(String, String),
    Server,
}

/// `Bad(code, description)` with these texts.
pub open spec fn is_bad(e: OAuthError, code: Seq<char>, description: Seq<char>) -> bool {
    e matches OAuthError::Bad(c, d) && c@ == code && d@ == description
}

impl OAuthError {
    /// A `400` error with an RFC 6749 error code and a description.
    pub fn bad(error: &str, description: String) -> (r: OAuthError)
        ensures
            is_bad(r, error@, description@),
    {
        OAuthError::Bad(copy_str(error), description)
    }
}

fn bad(error: &str, description: &str) -> (r: OAuthError)
    ensures
        is_bad(r, error@, description@),
{
    OAuthError::Bad(copy_str(error), copy_str(description))
}

/// The only scope advertised and granted.
pub open spec fn default_scope() -> Seq<char> {
    "chess"@
}

// ---------------------------------------------------------------------------
// Authorization requests
// ---------------------------------------------------------------------------

/// The query of `GET /oauth/authorize`.
pub struct AuthorizeQuery {
    pub response_type: Option<String>,
    pub client_id: Option<String>,
    pub redirect_uri: Option<String>,
    pub code_challenge: Option<String>,
    pub code_challenge_method: Option<String>,
    pub scope: Option<String>,
    pub state: Option<String>,
}

/// A validated authorization request.
pub struct AuthorizeRequest {
    pub client_id: String,
    pub redirect_uri: String,
    pub code_challenge: String,
    pub code_challenge_method: String,
    pub scope: String,
    pub state: Option<String>,
}

/// The view of an optional string.
pub open spec fn opt_view(o: Option<String>) -> Option<Seq<char>> {
    match o {
        Some(s) => Some(s@),
        None => None,
    }
}

/// How `GET /oauth/authorize`'s query validates, check by check: only
/// `response_type=code`; only PKCE `S256` (the default method); a non-empty
/// `code_challenge`; then `client_id` and `redirect_uri` present.
pub open spec fn authorize_ok(q: AuthorizeQuery, r: Result<AuthorizeRequest, OAuthError>) -> bool {
    let method = match opt_view(q.code_challenge_method) {
        Some(m) => m,
        None => "S256"@,
    };
    if opt_view(q.response_type) != Some("code"@) {
        r matches Err(e) && is_bad(
            e,
            "unsupported_response_type"@,
            "only response_type=code is supported"@,
        )
    } else if method != "S256"@ {
        r matches Err(e) && is_bad(
            e,
            "invalid_request"@,
            "only code_challenge_method=S256 is supported"@,
        )
    } else if q.code_challenge is None || q.code_challenge->0@.len() == 0 {
        r matches Err(e) && is_bad(e, "invalid_request"@, "code_challenge is required (PKCE)"@)
    } else if q.client_id is None {
        r matches Err(e) && is_bad(e, "invalid_request"@, "client_id is required"@)
    } else if q.redirect_uri is None {
        r matches Err(e) && is_bad(e, "invalid_request"@, "redirect_uri is required"@)
    } else {
        r matches Ok(a) && a.client_id@ == q.client_id->0@ && a.redirect_uri@
            == q.redirect_uri->0@ && a.code_challenge@ == q.code_challenge->0@
            && a.code_challenge_method@ == "S256"@ && a.scope@ == (match opt_view(q.scope) {
            Some(s) => s,
            None => default_scope(),
        }) && opt_view(a.state) == opt_view(q.state)
    }
}

fn copy_opt(o: &Option<String>) -> (r: Option<String>)
    ensures
        opt_view(r) == opt_view(*o),
{
    match o {
        Some(s) => Some(copy_str(s.as_str())),
        None => None,
    }
}

/// Validates `GET /oauth/authorize`'s query (before the client lookup).
pub fn validate_authorize(q: &AuthorizeQuery) -> (r: Result<AuthorizeRequest, OAuthError>)
    ensures
        authorize_ok(*q, r),
{
    let code_ok = match &q.response_type {
        Some(t) => str_eq(t.as_str(), "code"),
        None => false,
    };
    if !code_ok {
        return Err(bad("unsupported_response_type", "only response_type=code is supported"));
    }
    let method_ok = match &q.code_challenge_method {
        Some(m) => str_eq(m.as_str(), "S256"),
        None => true,
    };
    if !method_ok {
        return Err(bad("invalid_request", "only code_challenge_method=S256 is supported"));
    }
    let challenge = match &q.code_challenge {
        Some(c) => {
            if c.as_str().is_empty() {
                return Err(bad("invalid_request", "code_challenge is required (PKCE)"));
            }
            copy_str(c.as_str())
        },
        None => return Err(bad("invalid_request", "code_challenge is required (PKCE)")),
    };
    let client_id = match &q.client_id {
        Some(c) => copy_str(c.as_str()),
        None => return Err(bad("invalid_request", "client_id is required")),
    };
    let redirect_uri = match &q.redirect_uri {
        Some(u) => copy_str(u.as_str()),
        None => return Err(bad("invalid_request", "redirect_uri is required")),
    };
    let scope = match &q.scope {
        Some(s) => copy_str(s.as_str()),
        None => copy_str("chess"),
    };
    Ok(AuthorizeRequest {
        client_id,
        redirect_uri,
        code_challenge: challenge,
        code_challenge_method: copy_str("S256"),
        scope,
        state: copy_opt(&q.state),
    })
}

/// A registered OAuth client.
pub struct OAuthClient {
    pub client_id: String,
    pub client_name: String,
    /// The registered redirect URIs, as a JSON array of strings.
    pub redirect_uris: String,
}

/// Whether `uri` is one of the client's registered redirect URIs; a
/// registration that does not read as a JSON string array registers none.
pub open spec fn is_registered(client: OAuthClient, uri: Seq<char>) -> bool {
    match parsed_string_list(client.redirect_uris@) {
        Some(l) => l.contains(uri),
        None => false,
    }
}

/// Whether `uri` is one of the client's registered redirect URIs.
pub fn registered_redirect(client: &OAuthClient, uri: &str) -> (r: bool)
    ensures
        r == is_registered(*client, uri@),
{
    match parse_string_list(client.redirect_uris.as_str()) {
        Some(list) => {
            let mut i: usize = 0;
            while i < list.len()
                invariant
                    i <= list@.len(),
                    parsed_string_list(client.redirect_uris@) == Some(crate::text::views(list@)),
                    forall|j: int| 0 <= j < i ==> list@[j]@ != uri@,
                decreases list.len() - i,
            {
                if str_eq(list[i].as_str(), uri) {
                    proof {
                        let ghost vs = crate::text::views(list@);
                        assert(vs[i as int] == uri@);
                        assert(vs.contains(uri@));
                    }
                    return true;
                }
                i = i + 1;
            }
            assert(!crate::text::views(list@).contains(uri@)) by {
                if crate::text::views(list@).contains(uri@) {
                    let ghost vs = crate::text::views(list@);
                    let j = choose|j: int| 0 <= j < vs.len() && #[trigger] vs[j] == uri@;
                    assert(list@[j]@ == uri@);
                }
            }
            false
        },
        None => false,
    }
}

/// The client check of `GET /oauth/authorize`: an unknown client or an
/// unregistered redirect URI fails directly (never redirecting to an
/// untrusted target).
pub fn check_client(client: Option<&OAuthClient>, redirect_uri: &str) -> (r: Result<
    (),
    OAuthError,
>)
    ensures
        client is None ==> (r matches Err(e) && is_bad(
            e,
            "invalid_client"@,
            "unknown client_id"@,
        )),
        client matches Some(c) && !is_registered(*c, redirect_uri@) ==> (r matches Err(e)
            && is_bad(e, "invalid_request"@, "redirect_uri is not registered for this client"@)),
        client matches Some(c) && is_registered(*c, redirect_uri@) ==> r is Ok,
{
    match client {
        None => Err(bad("invalid_client", "unknown client_id")),
        Some(c) => if registered_redirect(c, redirect_uri) {
            Ok(())
        } else {
            Err(bad("invalid_request", "redirect_uri is not registered for this client"))
        },
    }
}

// ---------------------------------------------------------------------------
// Redirect targets
// ---------------------------------------------------------------------------

/// The SPA login bounce carrying the requested URL: `/?next=…`.
pub fn login_redirect(path_and_query: Option<&str>) -> (r: String)
    ensures
        r@ == "/?next="@ + percent_encoded(
            vstd::utf8::encode_utf8(
                match path_and_query {
                    Some(p) => p@,
                    None => "/"@,
                },
            ),
        ),
{
    let mut r = copy_str("/?next=");
    let next = match path_and_query {
        Some(p) => encode(p),
        None => encode("/"),
    };
    push_str(&mut r, next.as_str());
    r
}

/// What `GET /oauth/authorize` does with a valid request for a known client
/// and registered redirect URI.
pub enum AuthorizeStep {
    /// No one is signed in: bounce to the login page, coming back here.
    Login(String),
    /// The user already approved this client: issue a code at once.
    IssueCode,
    /// First time this user is asked about this client: park the request
    /// and show the consent screen.
    AskConsent,
}

/// Decides an authorization request: `user` is the signed-in user, if any,
/// `remembered` whether that user already approved this client, and
/// `path_and_query` the request's own URL to come back to after login.
pub fn authorize_step(user: Option<&str>, remembered: bool, path_and_query: Option<&str>) -> (r:
    AuthorizeStep)
    ensures
        user is None ==> (r matches AuthorizeStep::Login(t) && t@ == "/?next="@ + percent_encoded(
            vstd::utf8::encode_utf8(
                match path_and_query {
                    Some(p) => p@,
                    None => "/"@,
                },
            ),
        )),
        user is Some && remembered ==> r is IssueCode,
        user is Some && !remembered ==> r is AskConsent,
{
    match user {
        None => AuthorizeStep::Login(login_redirect(path_and_query)),
        Some(_) => if remembered {
            AuthorizeStep::IssueCode
        } else {
            AuthorizeStep::AskConsent
        },
    }
}

/// The consent-screen URL for a parked request.
pub fn consent_redirect(csrf_token: &str) -> (r: String)
    ensures
        r@ == "/oauth/consent?csrf_token="@ + percent_encoded(vstd::utf8::encode_utf8(csrf_token@)),
{
    let mut r = copy_str("/oauth/consent?csrf_token=");
    let t = encode(csrf_token);
    push_str(&mut r, t.as_str());
    r
}

/// The separator that starts a new query parameter on `uri`.
pub open spec fn query_sep(uri: Seq<char>) -> char {
    if uri.contains('?') {
        '&'
    } else {
        '?'
    }
}

/// `&state=…` when a non-empty state is given, else nothing.
pub open spec fn state_suffix(state: Option<Seq<char>>) -> Seq<char> {
    match state {
        Some(s) => if s.len() > 0 {
            "&state="@ + percent_encoded(vstd::utf8::encode_utf8(s))
        } else {
            Seq::empty()
        },
        None => Seq::empty(),
    }
}

fn push_state(target: &mut String, state: Option<&str>)
    ensures
        final(target)@ == old(target)@ + state_suffix(
            match state {
                Some(s) => Some(s@),
                None => None,
            },
        ),
{
    match state {
        Some(s) => {
            if !s.is_empty() {
                push_str(target, "&state=");
                let e = encode(s);
                push_str(target, e.as_str());
            } else {
                assert(old(target)@ + Seq::<char>::empty() == old(target)@);
            }
        },
        None => {
            assert(old(target)@ + Seq::<char>::empty() == old(target)@);
        },
    }
}

/// The redirect carrying a freshly minted authorization code back to the
/// client: `redirect_uri` + `?`/`&` + `code=…` (+ `&state=…`).
pub fn code_redirect(redirect_uri: &str, code: &str, state: Option<&str>) -> (r: String)
    ensures
        r@ == redirect_uri@.push(query_sep(redirect_uri@)) + "code="@ + percent_encoded(
            vstd::utf8::encode_utf8(code@),
        ) + state_suffix(
            match state {
                Some(s) => Some(s@),
                None => None,
            },
        ),
{
    let mut r = copy_str(redirect_uri);
    if contains_char(redirect_uri, '?') {
        push_char(&mut r, '&');
    } else {
        push_char(&mut r, '?');
    }
    push_str(&mut r, "code=");
    let c = encode(code);
    push_str(&mut r, c.as_str());
    push_state(&mut r, state);
    r
}

/// Every redirect back to a client starts with the client's own redirect
/// URI: a code or a denial is never sent anywhere else.
pub proof fn redirects_stay_on_the_redirect_uri(
    redirect_uri: Seq<char>,
    code: Seq<char>,
    state: Option<Seq<char>>,
)
    ensures
        code_target(redirect_uri, code, state).take(redirect_uri.len() as int) == redirect_uri,
        (redirect_uri.push(query_sep(redirect_uri)) + "error=access_denied"@ + state_suffix(
            state,
        )).take(redirect_uri.len() as int) == redirect_uri,
{
    assert(code_target(redirect_uri, code, state).take(redirect_uri.len() as int) =~= redirect_uri);
    assert((redirect_uri.push(query_sep(redirect_uri)) + "error=access_denied"@ + state_suffix(
        state,
    )).take(redirect_uri.len() as int) =~= redirect_uri);
}

/// The redirect answering a denied consent (RFC 6749 §4.1.2.1):
/// `redirect_uri` + `?`/`&` + `error=access_denied` (+ `&state=…`).
pub fn denied_redirect(redirect_uri: &str, state: Option<&str>) -> (r: String)
    ensures
        r@ == redirect_uri@.push(query_sep(redirect_uri@)) + "error=access_denied"@
            + state_suffix(
            match state {
                Some(s) => Some(s@),
                None => None,
            },
        ),
{
    let mut r = copy_str(redirect_uri);
    if contains_char(redirect_uri, '?') {
        push_char(&mut r, '&');
    } else {
        push_char(&mut r, '?');
    }
    push_str(&mut r, "error=access_denied");
    push_state(&mut r, state);
    r
}

// ---------------------------------------------------------------------------
// The consent screen
// ---------------------------------------------------------------------------

/// What the consent screen answers when it cannot proceed: short
/// human-readable messages rather than the RFC 6749 envelope.
#[derive(PartialEq, Eq, Structural, Debug, Clone, Copy)]
pub enum ConsentError {
    /// Missing, expired or already-consumed consent request (`400`).
    NotFound,
    /// The request belongs to someone else, or the poster is not logged in;
    /// deliberately not told apart (`403`).
    Forbidden,
    /// A storage failure (`500`).
    Db,
}

impl ConsentError {
    /// The HTTP status of the answer.
    pub fn status(&self) -> (r: u16)
        ensures
            r == match *self {
                ConsentError::NotFound => 400u16,
                ConsentError::Forbidden => 403u16,
                ConsentError::Db => 500u16,
            },
    {
        match self {
            ConsentError::NotFound => 400,
            ConsentError::Forbidden => 403,
            ConsentError::Db => 500,
        }
    }

    /// The body of the answer.
    pub fn message(&self) -> (r: &'static str)
        ensures
            r@ == match *self {
                ConsentError::NotFound => "unknown or expired consent request"@,
                ConsentError::Forbidden => "forbidden"@,
                ConsentError::Db => "internal error"@,
            },
    {
        match self {
            ConsentError::NotFound => "unknown or expired consent request",
            ConsentError::Forbidden => "forbidden",
            ConsentError::Db => "internal error",
        }
    }
}

/// A parked authorization request awaiting the user's decision. Times are
/// microseconds since the Unix epoch (UTC).
pub struct ConsentRequest {
    pub csrf_token: String,
    pub user_id: String,
    pub client_id: String,
    pub redirect_uri: String,
    pub code_challenge: String,
    pub code_challenge_method: String,
    pub scope: String,
    pub state: Option<String>,
    pub expires_at: i64,
}

/// Lifetime of a parked consent request, in seconds.
pub const CONSENT_REQUEST_TTL_SECS: i64 = 600;

/// Lifetime of an authorization code, in seconds.
pub const CODE_TTL_SECS: i64 = 600;

/// The expiry of something created at `now` (microseconds) that lives
/// `ttl_secs` seconds.
pub open spec fn expiry(now: int, ttl_secs: int) -> int {
    now + ttl_secs * 1_000_000
}

/// Parks the validated request of `user` for the consent screen, under
/// `csrf_token`, created at `now` (microseconds; the request expires
/// `CONSENT_REQUEST_TTL_SECS` later).
pub fn park_request(req: &AuthorizeRequest, user_id: &str, csrf_token: &str, now: i64) -> (r:
    ConsentRequest)
    requires
        now <= i64::MAX - 600_000_000,
    ensures
        r.csrf_token@ == csrf_token@,
        r.user_id@ == user_id@,
        r.client_id@ == req.client_id@,
        r.redirect_uri@ == req.redirect_uri@,
        r.code_challenge@ == req.code_challenge@,
        r.code_challenge_method@ == req.code_challenge_method@,
        r.scope@ == req.scope@,
        opt_view(r.state) == opt_view(req.state),
        r.expires_at == expiry(now as int, CONSENT_REQUEST_TTL_SECS as int),
{
    ConsentRequest {
        csrf_token: copy_str(csrf_token),
        user_id: copy_str(user_id),
        client_id: copy_str(req.client_id.as_str()),
        redirect_uri: copy_str(req.redirect_uri.as_str()),
        code_challenge: copy_str(req.code_challenge.as_str()),
        code_challenge_method: copy_str(req.code_challenge_method.as_str()),
        scope: copy_str(req.scope.as_str()),
        state: copy_opt(&req.state),
        expires_at: now + CONSENT_REQUEST_TTL_SECS * 1_000_000,
    }
}

/// A consent request is live while `now` is before its expiry.
pub open spec fn is_live(row: ConsentRequest, now: int) -> bool {
    now < row.expires_at
}

/// The lookup of a pending request by its token: a missing or expired one
/// is `NotFound`.
pub fn live_request(row: Option<ConsentRequest>, now: i64) -> (r: Result<
    ConsentRequest,
    ConsentError,
>)
    ensures
        r == match row {
            None => Err(ConsentError::NotFound),
            Some(x) => if is_live(x, now as int) {
                Ok(x)
            } else {
                Err(ConsentError::NotFound)
            },
        },
{
    match row {
        None => Err(ConsentError::NotFound),
        Some(x) => if x.expires_at <= now {
            Err(ConsentError::NotFound)
        } else {
            Ok(x)
        },
    }
}

/// Only the user who started the request may see or decide it; anyone else
/// gets `Forbidden`, never a hint that the token exists.
pub fn check_viewer(row: &ConsentRequest, user: &CurrentUser) -> (r: Result<(), ConsentError>)
    ensures
        r is Ok <==> row.user_id@ == user.id@,
        r is Err ==> r == Err::<(), ConsentError>(ConsentError::Forbidden),
{
    if str_eq(row.user_id.as_str(), user.id.as_str()) {
        Ok(())
    } else {
        Err(ConsentError::Forbidden)
    }
}

/// The opening of the consent page, up to the client's name.
pub open spec fn consent_page_head() -> Seq<char> {
    "<!doctype html>\n<html>\n<head><meta charset=\"utf-8\"><title>Authorize application</title></head>\n<body>\n<h1>Authorize application</h1>\n<p><strong>"@
}

/// The consent page between the client's name and the CSRF token.
pub open spec fn consent_page_middle() -> Seq<char> {
    "</strong> is requesting read and write access to your chess\ngames, databases and studies.</p>\n<form method=\"POST\" action=\"/oauth/consent\">\n<input type=\"hidden\" name=\"csrf_token\" value=\""@
}

/// The end of the consent page, after the CSRF token.
pub open spec fn consent_page_tail() -> Seq<char> {
    "\">\n<button type=\"submit\" name=\"decision\" value=\"approve\">Approve</button>\n<button type=\"submit\" name=\"decision\" value=\"deny\">Deny</button>\n</form>\n</body>\n</html>\n"@
}

/// The approve/deny page. The client's name is attacker-controlled free
/// text, so it is HTML-escaped, as is the token.
pub fn render_consent_page(client_name: &str, csrf_token: &str) -> (r: String)
    ensures
        r@ == consent_page_head() + html_escaped(client_name@) + consent_page_middle()
            + html_escaped(csrf_token@) + consent_page_tail(),
{
    let mut r = copy_str(
        "<!doctype html>\n<html>\n<head><meta charset=\"utf-8\"><title>Authorize application</title></head>\n<body>\n<h1>Authorize application</h1>\n<p><strong>",
    );
    let name = html_escape(client_name);
    push_str(&mut r, name.as_str());
    push_str(
        &mut r,
        "</strong> is requesting read and write access to your chess\ngames, databases and studies.</p>\n<form method=\"POST\" action=\"/oauth/consent\">\n<input type=\"hidden\" name=\"csrf_token\" value=\"",
    );
    let token = html_escape(csrf_token);
    push_str(&mut r, token.as_str());
    push_str(
        &mut r,
        "\">\n<button type=\"submit\" name=\"decision\" value=\"approve\">Approve</button>\n<button type=\"submit\" name=\"decision\" value=\"deny\">Deny</button>\n</form>\n</body>\n</html>\n",
    );
    r
}

/// What a consent decision leads to.
pub enum ConsentOutcome {
    /// Redirect back to the client with `error=access_denied`.
    Deny(String),
    /// Remember the approval and issue a code for this request.
    Approve(ConsentRequest),
}

/// The state of a request's `state` parameter as an optional view.
pub open spec fn state_view(row: ConsentRequest) -> Option<Seq<char>> {
    opt_view(row.state)
}

/// What `POST /oauth/consent` answers, once the request row has been looked
/// up (and deleted, whatever follows: the request is single-use): a missing
/// or expired row is `NotFound`; no logged-in user, or another user, is
/// `Forbidden`; any decision but exactly `approve` denies.
pub open spec fn consent_decided(
    row: Option<ConsentRequest>,
    now: int,
    user: Option<CurrentUser>,
    decision: Seq<char>,
    r: Result<ConsentOutcome, ConsentError>,
) -> bool {
    match row {
        None => r matches Err(ConsentError::NotFound),
        Some(x) => if !is_live(x, now) {
            r matches Err(ConsentError::NotFound)
        } else {
            match user {
                None => r matches Err(ConsentError::Forbidden),
                Some(u) => if x.user_id@ != u.id@ {
                    r matches Err(ConsentError::Forbidden)
                } else if decision != "approve"@ {
                    r matches Ok(ConsentOutcome::Deny(t)) && t@ == x.redirect_uri@.push(
                        query_sep(x.redirect_uri@),
                    ) + "error=access_denied"@ + state_suffix(state_view(x))
                } else {
                    r == Ok::<ConsentOutcome, ConsentError>(ConsentOutcome::Approve(x))
                },
            }
        },
    }
}

/// `POST /oauth/consent`'s decision (see `consent_decided`).
pub fn decide_consent(
    row: Option<ConsentRequest>,
    now: i64,
    user: Option<&CurrentUser>,
    decision: &str,
) -> (r: Result<ConsentOutcome, ConsentError>)
    ensures
        consent_decided(
            row,
            now as int,
            match user {
                Some(u) => Some(*u),
                None => None,
            },
            decision@,
            r,
        ),
{
    let row = match live_request(row, now) {
        Ok(x) => x,
        Err(e) => return Err(e),
    };
    let user = match user {
        Some(u) => u,
        None => return Err(ConsentError::Forbidden),
    };
    if let Err(e) = check_viewer(&row, user) {
        return Err(e);
    }
    if !str_eq(decision, "approve") {
        let state = match &row.state {
            Some(s) => Some(s.as_str()),
            None => None,
        };
        let target = denied_redirect(row.redirect_uri.as_str(), state);
        return Ok(ConsentOutcome::Deny(target));
    }
    Ok(ConsentOutcome::Approve(row))
}

// ---------------------------------------------------------------------------
// The token endpoint
// ---------------------------------------------------------------------------

/// The two grants the token endpoint serves.
#[derive(PartialEq, Eq, Structural, Debug, Clone, Copy)]
pub enum GrantType {
    AuthorizationCode,
    RefreshToken,
}

/// `POST /oauth/token`'s dispatch on `grant_type`.
pub fn grant_type(s: &str) -> (r: Result<GrantType, OAuthError>)
    ensures
        s@ == "authorization_code"@ ==> r matches Ok(GrantType::AuthorizationCode),
        s@ == "refresh_token"@ ==> r matches Ok(GrantType::RefreshToken),
        s@ != "authorization_code"@ && s@ != "refresh_token"@ ==> (r matches Err(e) && is_bad(
            e,
            "unsupported_grant_type"@,
            "unsupported grant_type: "@ + s@,
        )),
{
    proof {
        reveal_strlit("authorization_code");
        reveal_strlit("refresh_token");
        assert("authorization_code"@[0] != "refresh_token"@[0]);
    }
    if str_eq(s, "authorization_code") {
        Ok(GrantType::AuthorizationCode)
    } else if str_eq(s, "refresh_token") {
        Ok(GrantType::RefreshToken)
    } else {
        let mut d = copy_str("unsupported grant_type: ");
        push_str(&mut d, s);
        Err(OAuthError::bad("unsupported_grant_type", d))
    }
}

/// The form of `POST /oauth/token`.
pub struct TokenRequest {
    pub grant_type: String,
    pub code: Option<String>,
    pub redirect_uri: Option<String>,
    pub code_verifier: Option<String>,
    pub client_id: Option<String>,
    pub refresh_token: Option<String>,
}

/// The code exchange's required inputs, the code and the PKCE verifier, in
/// that order of checking.
pub fn code_exchange_inputs(req: &TokenRequest) -> (r: Result<(String, String), OAuthError>)
    ensures
        req.code is None ==> (r matches Err(e) && is_bad(e, "invalid_request"@, "code is required"@)),
        req.code is Some && req.code_verifier is None ==> (r matches Err(e) && is_bad(
            e,
            "invalid_request"@,
            "code_verifier is required (PKCE)"@,
        )),
        req.code is Some && req.code_verifier is Some ==> (r matches Ok(p) && p.0@
            == req.code->0@ && p.1@ == req.code_verifier->0@),
{
    let code = match &req.code {
        Some(c) => copy_str(c.as_str()),
        None => return Err(bad("invalid_request", "code is required")),
    };
    let verifier = match &req.code_verifier {
        Some(v) => copy_str(v.as_str()),
        None => return Err(bad("invalid_request", "code_verifier is required (PKCE)")),
    };
    Ok((code, verifier))
}

/// An issued authorization code. Times are microseconds since the Unix
/// epoch (UTC).
pub struct CodeRow {
    pub code: String,
    pub client_id: String,
    pub user_id: String,
    pub redirect_uri: String,
    pub code_challenge: String,
    pub code_challenge_method: String,
    pub scope: String,
    pub expires_at: i64,
    pub used: bool,
}

/// Where a freshly minted code sends the browser: `redirect_uri` + `?`/`&`
/// + `code=…` (+ `&state=…` for a non-empty state).
pub open spec fn code_target(redirect_uri: Seq<char>, code: Seq<char>, state: Option<Seq<char>>) -> Seq<
    char,
> {
    redirect_uri.push(query_sep(redirect_uri)) + "code="@ + percent_encoded(
        vstd::utf8::encode_utf8(code),
    ) + state_suffix(state)
}

/// Mints the authorization code `code` at `now` for an approved request:
/// the row to store (unused, expiring `CODE_TTL_SECS` later) and the
/// redirect back to the client. The shared tail of the remembered-consent
/// and consent-screen paths.
pub fn issue_code(
    client_id: &str,
    user_id: &str,
    redirect_uri: &str,
    code_challenge: &str,
    code_challenge_method: &str,
    scope: &str,
    state: Option<&str>,
    code: &str,
    now: i64,
) -> (r: (CodeRow, String))
    requires
        now <= i64::MAX - 600_000_000,
    ensures
        r.0.code@ == code@,
        r.0.client_id@ == client_id@,
        r.0.user_id@ == user_id@,
        r.0.redirect_uri@ == redirect_uri@,
        r.0.code_challenge@ == code_challenge@,
        r.0.code_challenge_method@ == code_challenge_method@,
        r.0.scope@ == scope@,
        r.0.expires_at == expiry(now as int, CODE_TTL_SECS as int),
        !r.0.used,
        r.1@ == code_target(
            redirect_uri@,
            code@,
            match state {
                Some(s) => Some(s@),
                None => None,
            },
        ),
{
    let row = CodeRow {
        code: copy_str(code),
        client_id: copy_str(client_id),
        user_id: copy_str(user_id),
        redirect_uri: copy_str(redirect_uri),
        code_challenge: copy_str(code_challenge),
        code_challenge_method: copy_str(code_challenge_method),
        scope: copy_str(scope),
        expires_at: now + CODE_TTL_SECS * 1_000_000,
        used: false,
    };
    (row, code_redirect(redirect_uri, code, state))
}

impl CodeRow {
    /// Marks the code used, before any token is issued for it.
    pub fn burn(&mut self)
        ensures
            final(self).used,
            final(self).code@ == old(self).code@,
            final(self).client_id@ == old(self).client_id@,
            final(self).user_id@ == old(self).user_id@,
            final(self).redirect_uri@ == old(self).redirect_uri@,
            final(self).code_challenge@ == old(self).code_challenge@,
            final(self).code_challenge_method@ == old(self).code_challenge_method@,
            final(self).scope@ == old(self).scope@,
            final(self).expires_at == old(self).expires_at,
    {
        self.used = true;
    }
}

/// How the code exchange judges a presented code, check by check: unknown;
/// already used or expired; a given `redirect_uri` or `client_id` that
/// differs from the code's; a failed PKCE verification (`pkce_ok` is the
/// S256 check of the verifier against the code's challenge).
pub open spec fn code_checked(
    req: TokenRequest,
    row: Option<CodeRow>,
    now: int,
    pkce_ok: bool,
    r: Result<(), OAuthError>,
) -> bool {
    match row {
        None => r matches Err(e) && is_bad(e, "invalid_grant"@, "unknown authorization code"@),
        Some(c) => if c.used || c.expires_at <= now {
            r matches Err(e) && is_bad(e, "invalid_grant"@, "authorization code expired or used"@)
        } else if req.redirect_uri is Some && req.redirect_uri->0@ != c.redirect_uri@ {
            r matches Err(e) && is_bad(e, "invalid_grant"@, "redirect_uri mismatch"@)
        } else if req.client_id is Some && req.client_id->0@ != c.client_id@ {
            r matches Err(e) && is_bad(e, "invalid_grant"@, "client_id mismatch"@)
        } else if !pkce_ok {
            r matches Err(e) && is_bad(e, "invalid_grant"@, "PKCE verification failed"@)
        } else {
            r is Ok
        },
    }
}

/// The code exchange's checks of the stored code (see `code_checked`).
pub fn check_code(req: &TokenRequest, row: Option<&CodeRow>, now: i64, pkce_ok: bool) -> (r:
    Result<(), OAuthError>)
    ensures
        code_checked(
            *req,
            match row {
                Some(c) => Some(*c),
                None => None,
            },
            now as int,
            pkce_ok,
            r,
        ),
{
    let c = match row {
        Some(c) => c,
        None => return Err(bad("invalid_grant", "unknown authorization code")),
    };
    if c.used || c.expires_at <= now {
        return Err(bad("invalid_grant", "authorization code expired or used"));
    }
    if let Some(rd) = &req.redirect_uri {
        if !str_eq(rd.as_str(), c.redirect_uri.as_str()) {
            return Err(bad("invalid_grant", "redirect_uri mismatch"));
        }
    }
    if let Some(cid) = &req.client_id {
        if !str_eq(cid.as_str(), c.client_id.as_str()) {
            return Err(bad("invalid_grant", "client_id mismatch"));
        }
    }
    if !pkce_ok {
        return Err(bad("invalid_grant", "PKCE verification failed"));
    }
    Ok(())
}

/// An authorization code is single-use: once burned, no exchange of it
/// succeeds again, whatever else is presented.
pub proof fn burned_code_is_refused(
    req: TokenRequest,
    row: CodeRow,
    now: int,
    pkce_ok: bool,
    r: Result<(), OAuthError>,
)
    requires
        row.used,
        code_checked(req, Some(row), now, pkce_ok, r),
    ensures
        r matches Err(e) && is_bad(e, "invalid_grant"@, "authorization code expired or used"@),
{
}

/// The refresh grant's required input.
pub fn refresh_token_arg(req: &TokenRequest) -> (r: Result<String, OAuthError>)
    ensures
        req.refresh_token is None ==> (r matches Err(e) && is_bad(
            e,
            "invalid_request"@,
            "refresh_token is required"@,
        )),
        req.refresh_token is Some ==> (r matches Ok(t) && t@ == req.refresh_token->0@),
{
    match &req.refresh_token {
        Some(t) => Ok(copy_str(t.as_str())),
        None => Err(bad("invalid_request", "refresh_token is required")),
    }
}

/// An issued token pair's row: what the refresh decision reads. Times are
/// microseconds since the Unix epoch (UTC).
pub struct TokenRow {
    pub family_id: String,
    pub revoked: bool,
    pub created_at: i64,
    pub scope: String,
}

/// What the refresh grant does with a presented refresh token.
pub enum RefreshOutcome {
    /// Answer with this error; nothing else changes.
    Reject(OAuthError),
    /// Revoke every row of the token's family, then answer with this error.
    RevokeFamily(OAuthError),
    /// Rotate: issue a new pair in the same family, revoking this one.
    Rotate,
}

/// Microseconds in `days` days.
pub open spec fn days_us(days: int) -> int {
    days * 86_400_000_000
}

/// The refresh grant's decision: an unknown token is rejected; a revoked
/// one is reuse (rotation had already moved past it), which revokes the
/// whole family; a family whose oldest row is more than `ttl_days` old has
/// outlived its absolute lifetime, which revokes it too; else rotate.
pub open spec fn refresh_decided(
    row: Option<TokenRow>,
    oldest_created_at: Option<i64>,
    now: int,
    ttl_days: int,
    r: RefreshOutcome,
) -> bool {
    match row {
        None => r matches RefreshOutcome::Reject(e) && is_bad(
            e,
            "invalid_grant"@,
            "unknown refresh token"@,
        ),
        Some(t) => if t.revoked {
            r matches RefreshOutcome::RevokeFamily(e) && is_bad(
                e,
                "invalid_grant"@,
                "refresh token reuse detected; the authorization has been revoked"@,
            )
        } else if oldest_created_at is Some && now - oldest_created_at->0 > days_us(ttl_days) {
            r matches RefreshOutcome::RevokeFamily(e) && is_bad(
                e,
                "invalid_grant"@,
                "refresh token expired"@,
            )
        } else {
            r is Rotate
        },
    }
}

/// The refresh grant's decision (see `refresh_decided`); `oldest_created_at`
/// is the creation time of the oldest row of the token's family.
pub fn refresh_decision(
    row: Option<&TokenRow>,
    oldest_created_at: Option<i64>,
    now: i64,
    ttl_days: i64,
) -> (r: RefreshOutcome)
    ensures
        refresh_decided(
            match row {
                Some(t) => Some(*t),
                None => None,
            },
            oldest_created_at,
            now as int,
            ttl_days as int,
            r,
        ),
{
    let t = match row {
        Some(t) => t,
        None => return RefreshOutcome::Reject(bad("invalid_grant", "unknown refresh token")),
    };
    if t.revoked {
        return RefreshOutcome::RevokeFamily(
            bad("invalid_grant", "refresh token reuse detected; the authorization has been revoked"),
        );
    }
    if let Some(oldest) = oldest_created_at {
        let age: i128 = now as i128 - oldest as i128;
        let limit: i128 = ttl_days as i128 * 86_400_000_000i128;
        if age > limit {
            return RefreshOutcome::RevokeFamily(bad("invalid_grant", "refresh token expired"));
        }
    }
    RefreshOutcome::Rotate
}

/// Reuse of a rotated-away refresh token never yields new tokens: it always
/// revokes the whole family.
pub proof fn reused_refresh_token_revokes_family(
    row: TokenRow,
    oldest_created_at: Option<i64>,
    now: int,
    ttl_days: int,
    r: RefreshOutcome,
)
    requires
        row.revoked,
        refresh_decided(Some(row), oldest_created_at, now, ttl_days, r),
    ensures
        r is RevokeFamily,
{
}

// ---------------------------------------------------------------------------
// Response documents
// ---------------------------------------------------------------------------

/// Member `k` of an object member list is named `key`.
pub open spec fn key_at(m: Seq<(String, Json)>, k: int, key: Seq<char>) -> bool {
    m[k].0@ == key
}

/// The RFC 6749 token response: the new pair, its lifetime in seconds and
/// the granted scope.
pub fn token_response(access: &str, refresh: &str, expires_in: i64, scope: &str) -> (r: Json)
    ensures
        r matches Json::Object(m) && m@.len() == 5 && key_at(m@, 0, "access_token"@) && is_text(
            m@[0].1,
            access@,
        ) && key_at(m@, 1, "token_type"@) && is_text(m@[1].1, "Bearer"@) && key_at(
            m@,
            2,
            "expires_in"@,
        ) && m@[2].1 == int_json(expires_in as int) && key_at(m@, 3, "refresh_token"@) && is_text(
            m@[3].1,
            refresh@,
        ) && key_at(m@, 4, "scope"@) && is_text(m@[4].1, scope@),
{
    let mut m: Vec<(String, Json)> = Vec::new();
    m.push((copy_str("access_token"), text(access)));
    m.push((copy_str("token_type"), text("Bearer")));
    m.push((copy_str("expires_in"), int_value(expires_in)));
    m.push((copy_str("refresh_token"), text(refresh)));
    m.push((copy_str("scope"), text(scope)));
    Json::Object(m)
}

/// The body of an `OAuthError` answer: `{error, error_description}` for a
/// `400`, `{error: "server_error"}` for a `500`.
pub fn error_body(e: &OAuthError) -> (r: (u16, Json))
    ensures
        match *e {
            OAuthError::Bad(code, description) => r.0 == 400 && (r.1 matches Json::Object(m)
                && m@.len() == 2 && key_at(m@, 0, "error"@) && is_text(m@[0].1, code@) && key_at(
                m@,
                1,
                "error_description"@,
            ) && is_text(m@[1].1, description@)),
            OAuthError::Server => r.0 == 500 && (r.1 matches Json::Object(m) && m@.len() == 1
                && key_at(m@, 0, "error"@) && is_text(m@[0].1, "server_error"@)),
        },
{
    let mut m: Vec<(String, Json)> = Vec::new();
    match e {
        OAuthError::Bad(code, description) => {
            m.push((copy_str("error"), text(code.as_str())));
            m.push((copy_str("error_description"), text(description.as_str())));
            (400, Json::Object(m))
        },
        OAuthError::Server => {
            m.push((copy_str("error"), text("server_error")));
            (500, Json::Object(m))
        },
    }
}

fn joined(base: &str, path: &str) -> (r: Json)
    ensures
        is_text(r, base@ + path@),
{
    let mut s = copy_str(base);
    push_str(&mut s, path);
    Json::Str(s)
}

/// RFC 9728 protected-resource metadata: `/mcp` is the resource and this
/// server (at `base`) its authorization server.
pub fn protected_resource_metadata(base: &str) -> (r: Json)
    ensures
        r matches Json::Object(m) && m@.len() == 4 && key_at(m@, 0, "resource"@) && is_text(
            m@[0].1,
            base@ + "/mcp"@,
        ) && key_at(m@, 1, "authorization_servers"@) && is_texts(m@[1].1, seq![base@])
            && key_at(m@, 2, "bearer_methods_supported"@) && is_texts(m@[2].1, seq!["header"@])
            && key_at(m@, 3, "scopes_supported"@) && is_texts(m@[3].1, seq![default_scope()]),
{
    let mut m: Vec<(String, Json)> = Vec::new();
    m.push((copy_str("resource"), joined(base, "/mcp")));
    let servers = vec![base];
    m.push((copy_str("authorization_servers"), texts(&servers)));
    let bearer = vec!["header"];
    m.push((copy_str("bearer_methods_supported"), texts(&bearer)));
    let scopes = vec!["chess"];
    m.push((copy_str("scopes_supported"), texts(&scopes)));
    proof {
        assert(servers@.map_values(|s: &str| s@) =~= seq![base@]);
        assert(bearer@.map_values(|s: &str| s@) =~= seq!["header"@]);
        assert(scopes@.map_values(|s: &str| s@) =~= seq![default_scope()]);
    }
    Json::Object(m)
}

/// RFC 8414 authorization-server metadata: the endpoints under `base`, and
/// the grants, response type, PKCE method and client authentication this
/// server supports.
pub fn authorization_server_metadata(base: &str) -> (r: Json)
    ensures
        r matches Json::Object(m) && m@.len() == 9 && key_at(m@, 0, "issuer"@) && is_text(
            m@[0].1,
            base@,
        ) && key_at(m@, 1, "authorization_endpoint"@) && is_text(
            m@[1].1,
            base@ + "/oauth/authorize"@,
        ) && key_at(m@, 2, "token_endpoint"@) && is_text(m@[2].1, base@ + "/oauth/token"@)
            && key_at(m@, 3, "registration_endpoint"@) && is_text(
            m@[3].1,
            base@ + "/oauth/register"@,
        ) && key_at(m@, 4, "response_types_supported"@) && is_texts(m@[4].1, seq!["code"@])
            && key_at(m@, 5, "grant_types_supported"@) && is_texts(
            m@[5].1,
            seq!["authorization_code"@, "refresh_token"@],
        ) && key_at(m@, 6, "code_challenge_methods_supported"@) && is_texts(
            m@[6].1,
            seq!["S256"@],
        ) && key_at(m@, 7, "token_endpoint_auth_methods_supported"@) && is_texts(
            m@[7].1,
            seq!["none"@],
        ) && key_at(m@, 8, "scopes_supported"@) && is_texts(m@[8].1, seq![default_scope()]),
{
    let mut m: Vec<(String, Json)> = Vec::new();
    m.push((copy_str("issuer"), text(base)));
    m.push((copy_str("authorization_endpoint"), joined(base, "/oauth/authorize")));
    m.push((copy_str("token_endpoint"), joined(base, "/oauth/token")));
    m.push((copy_str("registration_endpoint"), joined(base, "/oauth/register")));
    let response_types = vec!["code"];
    m.push((copy_str("response_types_supported"), texts(&response_types)));
    let grants = vec!["authorization_code", "refresh_token"];
    m.push((copy_str("grant_types_supported"), texts(&grants)));
    let methods = vec!["S256"];
    m.push((copy_str("code_challenge_methods_supported"), texts(&methods)));
    let auth_methods = vec!["none"];
    m.push((copy_str("token_endpoint_auth_methods_supported"), texts(&auth_methods)));
    let scopes = vec!["chess"];
    m.push((copy_str("scopes_supported"), texts(&scopes)));
    proof {
        assert(response_types@.map_values(|s: &str| s@) =~= seq!["code"@]);
        assert(grants@.map_values(|s: &str| s@) =~= seq!["authorization_code"@, "refresh_token"@]);
        assert(methods@.map_values(|s: &str| s@) =~= seq!["S256"@]);
        assert(auth_methods@.map_values(|s: &str| s@) =~= seq!["none"@]);
        assert(scopes@.map_values(|s: &str| s@) =~= seq![default_scope()]);
    }
    Json::Object(m)
}

// ---------------------------------------------------------------------------
// Dynamic client registration (RFC 7591)
// ---------------------------------------------------------------------------

/// The body of `POST /oauth/register`.
pub struct RegisterRequest {
    pub redirect_uris: Vec<String>,
    pub client_name: Option<String>,
}

/// A client to store: its id, display name and the JSON text of its
/// redirect URIs.
pub struct NewClient {
    pub client_id: String,
    pub client_name: String,
    pub redirect_uris: String,
}

/// The name a client registers under: its own, or `mcp-client`.
pub open spec fn registered_name(req: RegisterRequest) -> Seq<char> {
    match req.client_name {
        Some(n) => n@,
        None => "mcp-client"@,
    }
}

/// Registration of a public client under the fresh id `client_id`: at
/// least one redirect URI is required, and the list is stored as JSON text.
pub fn register_client(req: &RegisterRequest, client_id: &str) -> (r: Result<NewClient, OAuthError>)
    ensures
        req.redirect_uris@.len() == 0 ==> (r matches Err(e) && is_bad(
            e,
            "invalid_redirect_uri"@,
            "redirect_uris is required"@,
        )),
        req.redirect_uris@.len() > 0 && encoded_string_list(crate::text::views(req.redirect_uris@))
            is None ==> (r matches Err(e) && is_bad(
            e,
            "invalid_redirect_uri"@,
            "could not encode redirect_uris"@,
        )),
        req.redirect_uris@.len() > 0 ==> r is Ok,
        req.redirect_uris@.len() > 0 && encoded_string_list(crate::text::views(req.redirect_uris@))
            is Some ==> (r matches Ok(c) && c.client_id@ == client_id@ && c.client_name@
            == registered_name(*req) && Some(c.redirect_uris@) == encoded_string_list(
            crate::text::views(req.redirect_uris@),
        )),
{
    if req.redirect_uris.len() == 0 {
        return Err(bad("invalid_redirect_uri", "redirect_uris is required"));
    }
    let client_name = match &req.client_name {
        Some(n) => copy_str(n.as_str()),
        None => copy_str("mcp-client"),
    };
    match encode_string_list(&req.redirect_uris) {
        Some(uris) => Ok(NewClient { client_id: copy_str(client_id), client_name, redirect_uris: uris }),
        None => Err(bad("invalid_redirect_uri", "could not encode redirect_uris")),
    }
}

/// The `201` body answering a registration: the client as registered, with
/// its redirect URIs as given, and what it may use.
pub fn registration_body(client: &NewClient, redirect_uris: &Vec<String>) -> (r: Json)
    ensures
        r matches Json::Object(m) && m@.len() == 6 && key_at(m@, 0, "client_id"@) && is_text(
            m@[0].1,
            client.client_id@,
        ) && key_at(m@, 1, "client_name"@) && is_text(m@[1].1, client.client_name@) && key_at(
            m@,
            2,
            "redirect_uris"@,
        ) && is_texts(m@[2].1, crate::text::views(redirect_uris@)) && key_at(
            m@,
            3,
            "token_endpoint_auth_method"@,
        ) && is_text(m@[3].1, "none"@) && key_at(m@, 4, "grant_types"@) && is_texts(
            m@[4].1,
            seq!["authorization_code"@, "refresh_token"@],
        ) && key_at(m@, 5, "response_types"@) && is_texts(m@[5].1, seq!["code"@]),
{
    let mut uris: Vec<Json> = Vec::new();
    let mut i: usize = 0;
    while i < redirect_uris.len()
        invariant
            i <= redirect_uris@.len(),
            uris@.len() == i,
            forall|j: int| 0 <= j < i ==> #[trigger] is_text(uris@[j], redirect_uris@[j]@),
        decreases redirect_uris.len() - i,
    {
        uris.push(text(redirect_uris[i].as_str()));
        i = i + 1;
    }
    let mut m: Vec<(String, Json)> = Vec::new();
    m.push((copy_str("client_id"), text(client.client_id.as_str())));
    m.push((copy_str("client_name"), text(client.client_name.as_str())));
    m.push((copy_str("redirect_uris"), Json::Array(uris)));
    m.push((copy_str("token_endpoint_auth_method"), text("none")));
    let grants = vec!["authorization_code", "refresh_token"];
    m.push((copy_str("grant_types"), texts(&grants)));
    let response_types = vec!["code"];
    m.push((copy_str("response_types"), texts(&response_types)));
    proof {
        assert(grants@.map_values(|s: &str| s@) =~= seq!["authorization_code"@, "refresh_token"@]);
        assert(response_types@.map_values(|s: &str| s@) =~= seq!["code"@]);
    }
    Json::Object(m)
}

} // verus!
