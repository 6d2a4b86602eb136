//! Per-user display and behavioural preferences.
//!
//! `user_id` and `updated_at` are owned by the server; clients change only
//! the fields of `UserPreferencesUpdate`.

use vstd::prelude::*;
use crate::clock::{now, Id, Timestamp};

verus! {

/// UI theme preference; `System` follows the operating system.
#[derive(Debug, Clone, Copy, PartialEq, Eq, Structural)]
pub enum Theme {
    System,
    Light,
    Dark,
}

impl Default for Theme {
    fn default() -> (r: Self)
        ensures
            r == Theme::System,
    {
        Theme::System
    }
}

/// UI language preference; only English for now.
#[derive(Debug, Clone, Copy, PartialEq, Eq, Structural)]
pub enum Language {
    En,
}

impl Default for Language {
    fn default() -> (r: Self)
        ensures
            r == Language::En,
    {
        Language::En
    }
}

/// Persisted preferences of one user.
#[derive(Debug, Clone, Copy, PartialEq, Eq, Structural)]
pub struct UserPreferences {
    pub user_id: Id,
    pub theme: Theme,
    pub language: Language,
    pub notifications_enabled: bool,
    pub updated_at: Timestamp,
}

impl UserPreferences {
    /// Canonical defaults, stamped now.
    pub fn defaults(user_id: Id) -> (r: Self)
        ensures
            r.user_id == user_id,
            r.theme == Theme::System,
            r.language == Language::En,
            r.notifications_enabled,
    {
        UserPreferences::defaults_at(user_id, now())
    }

    /// Canonical defaults: system theme, English, notifications on.
    pub fn defaults_at(user_id: Id, at: Timestamp) -> (r: Self)
        ensures
            r == (UserPreferences {
                user_id,
                theme: Theme::System,
                language: Language::En,
                notifications_enabled: true,
                updated_at: at,
            }),
    {
        UserPreferences {
            user_id,
            theme: Theme::System,
            language: Language::En,
            notifications_enabled: true,
            updated_at: at,
        }
    }
}

/// Client-supplied partial update; only the fields given are changed.
#[derive(Debug, Clone, Copy, Default, PartialEq, Eq, Structural)]
pub struct UserPreferencesUpdate {
    pub theme: Option<Theme>,
    pub language: Option<Language>,
    pub notifications_enabled: Option<bool>,
}

pub open spec fn or_keep<T>(v: Option<T>, old: T) -> T {
    match v {
        Some(x) => x,
        None => old,
    }
}

/// Apply a partial update at time `at`: supplied fields replace the stored
/// ones, `user_id` is kept, `updated_at` becomes `at`.
pub fn apply_update(prefs: UserPreferences, update: UserPreferencesUpdate, at: Timestamp) -> (r: UserPreferences)
    ensures
        r == (UserPreferences {
            user_id: prefs.user_id,
            theme: or_keep(update.theme, prefs.theme),
            language: or_keep(update.language, prefs.language),
            notifications_enabled: or_keep(update.notifications_enabled, prefs.notifications_enabled),
            updated_at: at,
        }),
{
    let mut p = prefs;
    if let Some(theme) = update.theme {
        p.theme = theme;
    }
    if let Some(language) = update.language {
        p.language = language;
    }
    if let Some(enabled) = update.notifications_enabled {
        p.notifications_enabled = enabled;
    }
    p.updated_at = at;
    p
}

} // verus!
