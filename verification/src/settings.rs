//! Per-user UI preferences: the stored record, its canonical form (trimmed,
//! no blank fields), the value rules a save must pass, the per-user storage
//! key, and how failures are answered.

use vstd::prelude::*;

use crate::identity::CurrentUser;
use crate::json::{is_text, text, Json};
use crate::text::{
    blank, copy_str, is_blank, lemma_trimmed_idempotent, push_signed_decimal, push_str,
    signed_decimal, str_eq, trim, trimmed,
};

verus! {

/// A user's UI preferences. Every field is optional: the client falls back
/// to its own defaults, and older stored records stay readable.
pub struct UserSettings {
    /// Color scheme: `light`, `dark` or `system`.
    pub theme: Option<String>,
    /// Board color theme (client-defined).
    pub board_theme: Option<String>,
    /// Piece set (client-defined).
    pub piece_set: Option<String>,
    /// Database preselected for searches and imports; must be visible to
    /// the user.
    pub default_database_id: Option<i32>,
    /// Whether the plan-arrow overlay is shown.
    pub show_plans: Option<bool>,
    /// Whether the threat overlay is shown.
    pub show_threats: Option<bool>,
    /// Whether the master-moves overlay is shown.
    pub show_master_moves: Option<bool>,
}

impl Default for UserSettings {
    fn default() -> (r: UserSettings)
        ensures
            r.theme is None,
            r.board_theme is None,
            r.piece_set is None,
            r.default_database_id is None,
            r.show_plans is None,
            r.show_threats is None,
            r.show_master_moves is None,
    {
        UserSettings {
            theme: None,
            board_theme: None,
            piece_set: None,
            default_database_id: None,
            show_plans: None,
            show_threats: None,
            show_master_moves: None,
        }
    }
}

/// The view of an optional string.
pub open spec fn opt_chars(o: Option<String>) -> Option<Seq<char>> {
    match o {
        Some(s) => Some(s@),
        None => None,
    }
}

/// An optional text trimmed, with a blank one dropped.
pub open spec fn trim_opt(o: Option<Seq<char>>) -> Option<Seq<char>> {
    match o {
        Some(s) => if is_blank(s) {
            None
        } else {
            Some(trimmed(s))
        },
        None => None,
    }
}

/// Trims an optional text in place, collapsing a blank one to `None`.
pub fn trim_to_none(field: &mut Option<String>)
    ensures
        opt_chars(*final(field)) == trim_opt(opt_chars(*old(field))),
{
    let replacement = match field {
        Some(s) => if blank(s.as_str()) {
            Some(None)
        } else {
            Some(Some(trim(s.as_str())))
        },
        None => None,
    };
    if let Some(v) = replacement {
        *field = v;
    }
}

/// Trimming is idempotent, and what it keeps is never blank and has no
/// surrounding whitespace.
pub proof fn trim_opt_is_canonical(o: Option<Seq<char>>)
    ensures
        trim_opt(trim_opt(o)) == trim_opt(o),
        trim_opt(o) matches Some(s) ==> !is_blank(s) && trimmed(s) == s,
{
    if let Some(s) = o {
        lemma_trimmed_idempotent(s);
    }
}

impl UserSettings {
    /// The canonical form: text fields trimmed, blank ones dropped; the
    /// other fields are kept.
    pub fn normalize(&mut self)
        ensures
            opt_chars(final(self).theme) == trim_opt(opt_chars(old(self).theme)),
            opt_chars(final(self).board_theme) == trim_opt(opt_chars(old(self).board_theme)),
            opt_chars(final(self).piece_set) == trim_opt(opt_chars(old(self).piece_set)),
            final(self).default_database_id == old(self).default_database_id,
            final(self).show_plans == old(self).show_plans,
            final(self).show_threats == old(self).show_threats,
            final(self).show_master_moves == old(self).show_master_moves,
    {
        trim_to_none(&mut self.theme);
        trim_to_none(&mut self.board_theme);
        trim_to_none(&mut self.piece_set);
    }
}

/// Why a settings operation failed.
pub enum SettingsError {
    /// A field held a value outside its allowed set.
    InvalidInput(String),
    /// The stored record could not be read or written as JSON.
    Serde(String),
    /// A storage failure (never shown to clients).
    Db(String),
}

/// The settings error's display text.
pub open spec fn settings_error_text(e: SettingsError) -> Seq<char> {
    match e {
        SettingsError::InvalidInput(m) => m@,
        SettingsError::Serde(m) => "corrupt settings: "@ + m@,
        SettingsError::Db(m) => m@,
    }
}

impl SettingsError {
    /// The error's display text.
    pub fn to_text(&self) -> (r: String)
        ensures
            r@ == settings_error_text(*self),
    {
        match self {
            SettingsError::InvalidInput(m) => copy_str(m.as_str()),
            SettingsError::Serde(m) => {
                let mut r = copy_str("corrupt settings: ");
                push_str(&mut r, m.as_str());
                r
            },
            SettingsError::Db(m) => copy_str(m.as_str()),
        }
    }

    /// The answer: `400` with the message for invalid input; `500` with a
    /// generic message otherwise, never the internal detail.
    pub fn response(&self) -> (r: (u16, Json))
        ensures
            r.1 matches Json::Object(m) && m@.len() == 1 && m@[0].0@ == "error"@,
            self is InvalidInput ==> r.0 == 400 && is_text(r.1->Object_0@[0].1, settings_error_text(*self)),
            !(self is InvalidInput) ==> r.0 == 500 && is_text(r.1->Object_0@[0].1, "internal error"@),
    {
        let mut m: Vec<(String, Json)> = Vec::new();
        match self {
            SettingsError::InvalidInput(_) => {
                let t = self.to_text();
                m.push((copy_str("error"), Json::Str(t)));
                (400, Json::Object(m))
            },
            _ => {
                m.push((copy_str("error"), text("internal error")));
                (500, Json::Object(m))
            },
        }
    }
}

/// The allowed color schemes.
pub open spec fn is_theme(t: Seq<char>) -> bool {
    t == "light"@ || t == "dark"@ || t == "system"@
}

/// The color schemes a user may choose are exactly `light`, `dark` and
/// `system`: saving one of them passes the theme rule (see [`validate`]),
/// and any other text is refused with a message naming it and the three.
pub proof fn themes_are_light_dark_system(t: Seq<char>)
    ensures
        is_theme(t) <==> (t == "light"@ || t == "dark"@ || t == "system"@),
        !is_theme(t) ==> invalid_theme_message(t) == "invalid theme '"@ + t
            + "' (expected one of light, dark, system)"@,
{
}

/// The message for an unknown theme.
pub open spec fn invalid_theme_message(t: Seq<char>) -> Seq<char> {
    "invalid theme '"@ + t + "' (expected one of light, dark, system)"@
}

/// The message for a default database the user cannot see.
pub open spec fn unavailable_database_message(id: int) -> Seq<char> {
    "database "@ + signed_decimal(id) + " is not available"@
}

/// The value rules: a known theme, and a default database the user can see
/// (`default_database_visible` is whether the user's own or the global
/// databases hold `default_database_id`). Theme first.
pub fn validate(settings: &UserSettings, default_database_visible: bool) -> (r: Result<
    (),
    SettingsError,
>)
    ensures
        settings.theme is Some && !is_theme(settings.theme->0@) ==> (r matches Err(
            SettingsError::InvalidInput(m),
        ) && m@ == invalid_theme_message(settings.theme->0@)),
        (settings.theme is None || is_theme(settings.theme->0@)) && settings.default_database_id
            is Some && !default_database_visible ==> (r matches Err(SettingsError::InvalidInput(m))
            && m@ == unavailable_database_message(settings.default_database_id->0 as int)),
        (settings.theme is None || is_theme(settings.theme->0@)) && (
        settings.default_database_id is None || default_database_visible) ==> r is Ok,
        settings.theme is Some && settings.theme->0@ != "light"@ && settings.theme->0@ != "dark"@
            && settings.theme->0@ != "system"@ ==> (r matches Err(SettingsError::InvalidInput(m))
            && m@ == invalid_theme_message(settings.theme->0@)),
        (settings.theme is None || settings.theme->0@ == "light"@ || settings.theme->0@ == "dark"@
            || settings.theme->0@ == "system"@) && (settings.default_database_id is None
            || default_database_visible) ==> r is Ok,
{
    if let Some(t) = &settings.theme {
        let t = t.as_str();
        if !(str_eq(t, "light") || str_eq(t, "dark") || str_eq(t, "system")) {
            let mut m = copy_str("invalid theme '");
            push_str(&mut m, t);
            push_str(&mut m, "' (expected one of light, dark, system)");
            return Err(SettingsError::InvalidInput(m));
        }
    }
    if let Some(id) = settings.default_database_id {
        if !default_database_visible {
            let mut m = copy_str("database ");
            push_signed_decimal(&mut m, id as i64);
            push_str(&mut m, " is not available");
            return Err(SettingsError::InvalidInput(m));
        }
    }
    Ok(())
}

/// A save's decision: the settings in canonical form if they pass the value
/// rules, which apply to that canonical form.
pub fn prepare_settings(settings: UserSettings, default_database_visible: bool) -> (r: Result<
    UserSettings,
    SettingsError,
>)
    ensures
        ({
            let theme = trim_opt(opt_chars(settings.theme));
            &&& theme is Some && !is_theme(theme->0) ==> (r matches Err(
                SettingsError::InvalidInput(m),
            ) && m@ == invalid_theme_message(theme->0))
            &&& (theme is None || is_theme(theme->0)) && settings.default_database_id is Some
                && !default_database_visible ==> (r matches Err(SettingsError::InvalidInput(m))
                && m@ == unavailable_database_message(settings.default_database_id->0 as int))
            &&& (theme is None || is_theme(theme->0)) && (settings.default_database_id is None
                || default_database_visible) ==> (r matches Ok(s) && opt_chars(s.theme) == theme
                && opt_chars(s.board_theme) == trim_opt(opt_chars(settings.board_theme))
                && opt_chars(s.piece_set) == trim_opt(opt_chars(settings.piece_set))
                && s.default_database_id == settings.default_database_id && s.show_plans
                == settings.show_plans && s.show_threats == settings.show_threats
                && s.show_master_moves == settings.show_master_moves)
        }),
{
    let mut settings = settings;
    settings.normalize();
    match validate(&settings, default_database_visible) {
        Ok(()) => Ok(settings),
        Err(e) => Err(e),
    }
}

/// The storage key of a user's preferences.
pub open spec fn settings_key(user_id: Seq<char>) -> Seq<char> {
    "user_settings:"@ + user_id
}

/// The key under which `user`'s preferences are stored.
pub fn key_for(user: &CurrentUser) -> (r: String)
    ensures
        r@ == settings_key(user.id@),
{
    let mut r = copy_str("user_settings:");
    push_str(&mut r, user.id.as_str());
    r
}

/// Preferences are per user: two users never share a storage key.
pub proof fn settings_keys_are_per_user(a: Seq<char>, b: Seq<char>)
    requires
        a != b,
    ensures
        settings_key(a) != settings_key(b),
{
    let p = "user_settings:"@;
    assert((p + a).skip(p.len() as int) =~= a);
    assert((p + b).skip(p.len() as int) =~= b);
}

} // verus!
