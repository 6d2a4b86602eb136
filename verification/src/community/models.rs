//! Community domain models.

use vstd::prelude::*;
use crate::clock::{Id, Timestamp};
use crate::text::str_eq;

verus! {

/// Public community profile owned by a platform user.
///
/// The username is immutable; `normalized_username` is used only for
/// uniqueness and lookup.
#[derive(Debug, Clone, PartialEq, Eq)]
pub struct CommunityProfile {
    pub user_id: Id,
    pub username: String,
    pub normalized_username: String,
    pub display_name: Option<String>,
    pub bio: Option<String>,
    pub created_at: Timestamp,
    pub updated_at: Timestamp,
}

/// A copy of an optional string.
pub fn copy_opt(s: &Option<String>) -> (r: Option<String>)
    ensures
        r == *s,
{
    match s {
        Some(v) => Some(v.clone()),
        None => None,
    }
}

impl CommunityProfile {
    /// A profile created (and last updated) at `now`.
    pub fn new(
        user_id: Id,
        username: String,
        normalized_username: String,
        display_name: Option<String>,
        bio: Option<String>,
        now: Timestamp,
    ) -> (r: Self)
        ensures
            r == (CommunityProfile {
                user_id,
                username,
                normalized_username,
                display_name,
                bio,
                created_at: now,
                updated_at: now,
            }),
    {
        CommunityProfile {
            user_id,
            username,
            normalized_username,
            display_name,
            bio,
            created_at: now,
            updated_at: now,
        }
    }

    /// A field-by-field copy.
    pub fn copy(&self) -> (r: Self)
        ensures
            r == *self,
    {
        CommunityProfile {
            user_id: self.user_id,
            username: self.username.clone(),
            normalized_username: self.normalized_username.clone(),
            display_name: copy_opt(&self.display_name),
            bio: copy_opt(&self.bio),
            created_at: self.created_at,
            updated_at: self.updated_at,
        }
    }
}

#[derive(Debug, Clone, Copy, PartialEq, Eq, Structural)]
pub enum CommunityRole {
    User,
    Moderator,
    Admin,
}

impl Default for CommunityRole {
    fn default() -> (r: Self)
        ensures
            r == CommunityRole::User,
    {
        CommunityRole::User
    }
}

/// The stable name of a role, used for persistence and API contracts.
pub open spec fn role_name(r: CommunityRole) -> Seq<char> {
    match r {
        CommunityRole::User => "user"@,
        CommunityRole::Moderator => "moderator"@,
        CommunityRole::Admin => "admin"@,
    }
}

/// The role with stable name `s`, if any.
pub open spec fn role_from_name(s: Seq<char>) -> Option<CommunityRole> {
    if s == "user"@ {
        Some(CommunityRole::User)
    } else if s == "moderator"@ {
        Some(CommunityRole::Moderator)
    } else if s == "admin"@ {
        Some(CommunityRole::Admin)
    } else {
        None
    }
}

impl CommunityRole {
    /// Stable string representation.
    pub fn as_str(self) -> (r: &'static str)
        ensures
            r@ == role_name(self),
    {
        match self {
            CommunityRole::User => "user",
            CommunityRole::Moderator => "moderator",
            CommunityRole::Admin => "admin",
        }
    }

    /// Parse a role from its stable string representation; `None` for
    /// unknown values.
    pub fn from_str(value: &str) -> (r: Option<CommunityRole>)
        ensures
            r == role_from_name(value@),
    {
        if str_eq(value, "user") {
            Some(CommunityRole::User)
        } else if str_eq(value, "moderator") {
            Some(CommunityRole::Moderator)
        } else if str_eq(value, "admin") {
            Some(CommunityRole::Admin)
        } else {
            None
        }
    }
}

/// Parsing a role's stable name gives the role back.
pub proof fn law_role_name_round_trip(r: CommunityRole)
    ensures
        role_from_name(role_name(r)) == Some(r),
{
    reveal_strlit("user");
    reveal_strlit("moderator");
    reveal_strlit("admin");
    assert("user"@.len() == 4);
    assert("moderator"@.len() == 9);
    assert("admin"@.len() == 5);
}

} // verus!
