//! Community service: profile rules over a `CommunityStorage`.
//!
//! It validates input, tells creation from update, keeps usernames
//! immutable, maps a storage username conflict to the public contract and
//! builds the response bodies. Storage errors are passed on unchanged.

use vstd::prelude::*;
use crate::clock::{self, Id, Timestamp};
use crate::community::contracts::{
    validation_api_error, PrivateProfileResponse, PublicProfileResponse, UpdateProfileRequest,
    USERNAME_ALREADY_EXISTS_CODE, USERNAME_ALREADY_EXISTS_MESSAGE, USERNAME_IMMUTABLE_CODE,
    USERNAME_IMMUTABLE_MESSAGE, USERNAME_REQUIRED_CODE, USERNAME_REQUIRED_MESSAGE,
};
use crate::community::models::{copy_opt, CommunityProfile, CommunityRole};
use crate::community::storage::{role_of, username_claimed, CommunityStorage};
use crate::community::validation::{
    as_opt_str, free_text_outcome, opt_string_view, username_outcome, validate_bio, validate_display_name,
    validate_username,
};
use crate::error::ApiError;

verus! {

/// The validated display name and bio of a request, or the first error.
pub open spec fn fields_outcome(request: UpdateProfileRequest) -> Result<
    (Option<Seq<char>>, Option<Seq<char>>),
    ApiError,
> {
    match free_text_outcome(opt_string_view(request.display_name), false) {
        Err(e) => Err(validation_api_error(e)),
        Ok(d) => match free_text_outcome(opt_string_view(request.bio), true) {
            Err(e) => Err(validation_api_error(e)),
            Ok(b) => Ok((d, b)),
        },
    }
}

pub open spec fn username_required_error() -> ApiError {
    ApiError::ValidationFailed { code: USERNAME_REQUIRED_CODE, message: USERNAME_REQUIRED_MESSAGE }
}

pub open spec fn username_taken_error() -> ApiError {
    ApiError::ConflictDetailed {
        code: USERNAME_ALREADY_EXISTS_CODE,
        message: USERNAME_ALREADY_EXISTS_MESSAGE,
    }
}

pub open spec fn username_immutable_error() -> ApiError {
    ApiError::ConflictDetailed { code: USERNAME_IMMUTABLE_CODE, message: USERNAME_IMMUTABLE_MESSAGE }
}

/// Why a new profile cannot be built from the requested username, if it
/// cannot.
pub open spec fn create_plan_error(username: Option<Seq<char>>) -> Option<ApiError> {
    match username {
        None => Some(username_required_error()),
        Some(u) => match username_outcome(u) {
            Err(e) => Some(validation_api_error(e)),
            Ok(_) => None,
        },
    }
}

/// `p` is the new profile of `user_id` built from the requested username
/// and the validated fields, created and updated at `now`.
pub open spec fn create_plan_ok(
    p: CommunityProfile,
    user_id: Id,
    username: Option<Seq<char>>,
    display_name: Option<Seq<char>>,
    bio: Option<Seq<char>>,
    now: Timestamp,
) -> bool {
    &&& username matches Some(u)
    &&& username_outcome(u) matches Ok((c, n))
    &&& p.user_id == user_id
    &&& p.username@ == c
    &&& p.normalized_username@ == n
    &&& opt_string_view(p.display_name) == display_name
    &&& opt_string_view(p.bio) == bio
    &&& p.created_at == now
    &&& p.updated_at == now
}

/// A profile write that must succeed: an update whose username is absent
/// or normalizes to the stored one, or a creation with a valid username
/// that no other profile claims.
pub open spec fn profile_write_owed(ps: Map<Id, CommunityProfile>, id: Id, username: Option<Seq<char>>) -> bool {
    if ps.contains_key(id) {
        update_plan_error(ps[id], username) is None
    } else {
        &&& create_plan_error(username) is None
        &&& !username_claimed(ps, username_outcome(username->0)->Ok_0.1)
    }
}

/// Why `existing` cannot be updated with the requested username: an
/// invalid username, or one that normalizes to another name.
pub open spec fn update_plan_error(existing: CommunityProfile, username: Option<Seq<char>>) -> Option<
    ApiError,
> {
    match username {
        None => None,
        Some(u) => match username_outcome(u) {
            Err(e) => Some(validation_api_error(e)),
            Ok((_, n)) => if n == existing.normalized_username@ {
                None
            } else {
                Some(username_immutable_error())
            },
        },
    }
}

/// `p` is `existing` with the validated fields, updated at `now`; the
/// username (as first written) and creation time are kept.
pub open spec fn update_plan_ok(
    p: CommunityProfile,
    existing: CommunityProfile,
    display_name: Option<Seq<char>>,
    bio: Option<Seq<char>>,
    now: Timestamp,
) -> bool {
    &&& p.user_id == existing.user_id
    &&& p.username == existing.username
    &&& p.normalized_username == existing.normalized_username
    &&& opt_string_view(p.display_name) == display_name
    &&& opt_string_view(p.bio) == bio
    &&& p.created_at == existing.created_at
    &&& p.updated_at == now
}

/// The owner's view of profile `p` with role `role`; no avatar URL yet.
pub open spec fn private_response_of(
    resp: PrivateProfileResponse,
    p: CommunityProfile,
    role: CommunityRole,
) -> bool {
    &&& resp.username == p.username
    &&& resp.display_name == p.display_name
    &&& resp.bio == p.bio
    &&& resp.avatar_url is None
    &&& resp.joined_at == p.created_at
    &&& resp.role == role
}

/// The public view of profile `p`: no user id, e-mail or role.
pub open spec fn public_response_of(resp: PublicProfileResponse, p: CommunityProfile) -> bool {
    &&& resp.username == p.username
    &&& resp.display_name == p.display_name
    &&& resp.bio == p.bio
    &&& resp.avatar_url is None
    &&& resp.joined_at == p.created_at
}

/// Build the new profile for a first write.
pub fn plan_create(
    user_id: Id,
    username: Option<String>,
    display_name: Option<String>,
    bio: Option<String>,
    now: Timestamp,
) -> (r: Result<CommunityProfile, ApiError>)
    ensures
        match create_plan_error(opt_string_view(username)) {
            Some(e) => (r matches Err(x) && x == e),
            None => (r matches Ok(p) && create_plan_ok(
                p,
                user_id,
                opt_string_view(username),
                opt_string_view(display_name),
                opt_string_view(bio),
                now,
            )),
        },
{
    let raw = match username {
        Some(raw) => raw,
        None => {
            return Err(
                ApiError::ValidationFailed {
                    code: USERNAME_REQUIRED_CODE,
                    message: USERNAME_REQUIRED_MESSAGE,
                },
            );
        },
    };
    match validate_username(raw.as_str()) {
        Err(e) => Err(ApiError::from(e)),
        Ok(valid) => Ok(
            CommunityProfile::new(
                user_id,
                valid.canonical,
                valid.normalized,
                display_name,
                bio,
                now,
            ),
        ),
    }
}

/// Build the updated profile for an existing one.
pub fn plan_update(
    existing: &CommunityProfile,
    username: Option<String>,
    display_name: Option<String>,
    bio: Option<String>,
    now: Timestamp,
) -> (r: Result<CommunityProfile, ApiError>)
    ensures
        match update_plan_error(*existing, opt_string_view(username)) {
            Some(e) => (r matches Err(x) && x == e),
            None => (r matches Ok(p) && update_plan_ok(
                p,
                *existing,
                opt_string_view(display_name),
                opt_string_view(bio),
                now,
            )),
        },
{
    if let Some(raw) = username {
        match validate_username(raw.as_str()) {
            Err(e) => {
                return Err(ApiError::from(e));
            },
            Ok(valid) => {
                if valid.normalized != existing.normalized_username {
                    return Err(
                        ApiError::ConflictDetailed {
                            code: USERNAME_IMMUTABLE_CODE,
                            message: USERNAME_IMMUTABLE_MESSAGE,
                        },
                    );
                }
            },
        }
    }
    Ok(
        CommunityProfile {
            user_id: existing.user_id,
            username: existing.username.clone(),
            normalized_username: existing.normalized_username.clone(),
            display_name,
            bio,
            created_at: existing.created_at,
            updated_at: now,
        },
    )
}

/// A storage conflict on creation means the username is taken (the user
/// had no profile a moment before); any other error passes unchanged.
pub fn create_error(e: ApiError) -> (r: ApiError)
    ensures
        r == (if e == ApiError::Conflict {
            username_taken_error()
        } else {
            e
        }),
{
    match e {
        ApiError::Conflict => ApiError::ConflictDetailed {
            code: USERNAME_ALREADY_EXISTS_CODE,
            message: USERNAME_ALREADY_EXISTS_MESSAGE,
        },
        other => other,
    }
}

pub fn to_public_response(profile: &CommunityProfile) -> (r: PublicProfileResponse)
    ensures
        public_response_of(r, *profile),
{
    PublicProfileResponse {
        username: profile.username.clone(),
        display_name: copy_opt(&profile.display_name),
        bio: copy_opt(&profile.bio),
        avatar_url: None,
        joined_at: profile.created_at,
    }
}

pub fn to_private_response(profile: &CommunityProfile, role: CommunityRole) -> (r:
    PrivateProfileResponse)
    ensures
        private_response_of(r, *profile, role),
{
    PrivateProfileResponse {
        username: profile.username.clone(),
        display_name: copy_opt(&profile.display_name),
        bio: copy_opt(&profile.bio),
        avatar_url: None,
        joined_at: profile.created_at,
        role,
    }
}

/// `ps2` is `ps` after the caller `id` (with role `role`) wrote their
/// profile at `now` with `request`, answered by `resp`: on update the
/// username plan was accepted and the fields replaced; on creation the
/// profile was made with a username nobody held.
pub open spec fn profile_written(
    ps: Map<Id, CommunityProfile>,
    ps2: Map<Id, CommunityProfile>,
    role: CommunityRole,
    id: Id,
    request: UpdateProfileRequest,
    now: Timestamp,
    resp: PrivateProfileResponse,
) -> bool {
    match fields_outcome(request) {
        Ok((d, b)) => {
            &&& ps2 == ps.insert(id, ps2[id])
            &&& private_response_of(resp, ps2[id], role)
            &&& if ps.contains_key(id) {
                &&& update_plan_error(ps[id], opt_string_view(request.username)) is None
                &&& update_plan_ok(ps2[id], ps[id], d, b, now)
            } else {
                &&& create_plan_ok(ps2[id], id, opt_string_view(request.username), d, b, now)
                &&& !username_claimed(ps, ps2[id].normalized_username@)
            }
        },
        Err(_) => false,
    }
}

/// Application service for community operations.
pub struct CommunityService<S: CommunityStorage> {
    storage: S,
}

impl<S: CommunityStorage> CommunityService<S> {
    pub closed spec fn store(&self) -> S {
        self.storage
    }

    pub fn new(storage: S) -> (r: Self)
        ensures
            r.store() == storage,
    {
        CommunityService { storage }
    }

    /// The storage behind the service.
    pub fn storage(&self) -> (r: &S)
        ensures
            *r == self.store(),
    {
        &self.storage
    }

    /// Create or update the caller's profile at time `now`.
    ///
    /// Creation needs a username; on update an omitted username leaves it
    /// unchanged, the same normalized username is accepted, another is a
    /// conflict.
    pub fn create_or_update_profile_at(
        &mut self,
        user_id: &Id,
        request: UpdateProfileRequest,
        now: Timestamp,
    ) -> (r: Result<PrivateProfileResponse, ApiError>)
        requires
            old(self).store().inv(),
        ensures
            final(self).store().inv(),
            final(self).store().roles() == old(self).store().roles(),
            fields_outcome(request) matches Err(e) ==> (r matches Err(x) && x == e)
                && final(self).store().profiles() == old(self).store().profiles(),
            r matches Ok(resp) ==> profile_written(
                old(self).store().profiles(),
                final(self).store().profiles(),
                role_of(old(self).store().roles(), *user_id),
                *user_id,
                request,
                now,
                resp,
            ),
            r is Err ==> {
                ||| final(self).store().profiles() == old(self).store().profiles()
                ||| final(self).store().profiles() == old(self).store().profiles().insert(
                    *user_id,
                    final(self).store().profiles()[*user_id],
                )
            },
            ({
                let ps = old(self).store().profiles();
                let inf = old(self).store().infallible();
                let u = opt_string_view(request.username);
                &&& inf && fields_outcome(request) is Ok && profile_write_owed(ps, *user_id, u) ==> r is Ok
                &&& inf && fields_outcome(request) is Ok && ps.contains_key(*user_id) && update_plan_error(
                    ps[*user_id],
                    u,
                ) is Some ==> r == Err::<PrivateProfileResponse, ApiError>(update_plan_error(ps[*user_id], u)->0)
                    && final(self).store().profiles() == ps
                &&& inf && fields_outcome(request) is Ok && !ps.contains_key(*user_id) && create_plan_error(u)
                    is Some ==> r == Err::<PrivateProfileResponse, ApiError>(create_plan_error(u)->0)
                    && final(self).store().profiles() == ps
            }),
    {
        let display_name = match validate_display_name(as_opt_str(&request.display_name)) {
            Ok(d) => d,
            Err(e) => {
                return Err(ApiError::from(e));
            },
        };
        let bio = match validate_bio(as_opt_str(&request.bio)) {
            Ok(b) => b,
            Err(e) => {
                return Err(ApiError::from(e));
            },
        };
        proof {
            self.storage.lemma_profiles_consistent();
        }
        let existing = match self.storage.get_profile_by_user_id(user_id) {
            Ok(existing) => existing,
            Err(e) => {
                return Err(e);
            },
        };
        match existing {
            None => {
                let profile = match plan_create(*user_id, request.username, display_name, bio, now) {
                    Ok(p) => p,
                    Err(e) => {
                        return Err(e);
                    },
                };
                match self.storage.create_profile(&profile) {
                    Ok(()) => {},
                    Err(e) => {
                        return Err(create_error(e));
                    },
                }
                let role = match self.storage.get_role(user_id) {
                    Ok(role) => role,
                    Err(e) => {
                        return Err(e);
                    },
                };
                Ok(to_private_response(&profile, role))
            },
            Some(existing) => {
                let updated = match plan_update(
                    &existing,
                    request.username,
                    display_name,
                    bio,
                    now,
                ) {
                    Ok(p) => p,
                    Err(e) => {
                        return Err(e);
                    },
                };
                match self.storage.update_profile(&updated) {
                    Ok(()) => {},
                    Err(e) => {
                        return Err(e);
                    },
                }
                let role = match self.storage.get_role(&updated.user_id) {
                    Ok(role) => role,
                    Err(e) => {
                        return Err(e);
                    },
                };
                Ok(to_private_response(&updated, role))
            },
        }
    }

    /// `create_or_update_profile_at` at the current time.
    pub fn create_or_update_profile(&mut self, user_id: &Id, request: UpdateProfileRequest) -> (r:
        Result<PrivateProfileResponse, ApiError>)
        requires
            old(self).store().inv(),
        ensures
            final(self).store().inv(),
            final(self).store().roles() == old(self).store().roles(),
            fields_outcome(request) matches Err(e) ==> (r matches Err(x) && x == e)
                && final(self).store().profiles() == old(self).store().profiles(),
            ({
                let ps = old(self).store().profiles();
                let inf = old(self).store().infallible();
                let u = opt_string_view(request.username);
                &&& inf && fields_outcome(request) is Ok && profile_write_owed(ps, *user_id, u) ==> r is Ok
                &&& inf && fields_outcome(request) is Ok && ps.contains_key(*user_id) && update_plan_error(
                    ps[*user_id],
                    u,
                ) is Some ==> r == Err::<PrivateProfileResponse, ApiError>(update_plan_error(ps[*user_id], u)->0)
                    && final(self).store().profiles() == ps
                &&& inf && fields_outcome(request) is Ok && !ps.contains_key(*user_id) && create_plan_error(u)
                    is Some ==> r == Err::<PrivateProfileResponse, ApiError>(create_plan_error(u)->0)
                    && final(self).store().profiles() == ps
            }),
            r matches Ok(resp) ==> exists|now: Timestamp|
                #[trigger] profile_written(
                    old(self).store().profiles(),
                    final(self).store().profiles(),
                    role_of(old(self).store().roles(), *user_id),
                    *user_id,
                    request,
                    now,
                    resp,
                ),
            r is Err ==> {
                ||| final(self).store().profiles() == old(self).store().profiles()
                ||| final(self).store().profiles() == old(self).store().profiles().insert(
                    *user_id,
                    final(self).store().profiles()[*user_id],
                )
            },
    {
        let now = clock::now();
        let ghost req = request;
        let r = self.create_or_update_profile_at(user_id, request, now);
        proof {
            if r is Ok {
                assert(profile_written(
                    old(self).store().profiles(),
                    self.store().profiles(),
                    role_of(old(self).store().roles(), *user_id),
                    *user_id,
                    req,
                    now,
                    r->Ok_0,
                ));
            }
        }
        r
    }

    /// The caller's own profile, with their role.
    pub fn get_own_profile(&self, user_id: &Id) -> (r: Result<PrivateProfileResponse, ApiError>)
        requires
            self.store().inv(),
        ensures
            r matches Ok(resp) ==> self.store().profiles().contains_key(*user_id)
                && private_response_of(
                resp,
                self.store().profiles()[*user_id],
                role_of(self.store().roles(), *user_id),
            ),
            !self.store().profiles().contains_key(*user_id) ==> r is Err,
            self.store().infallible() && self.store().profiles().contains_key(*user_id) ==> r is Ok,
    {
        let profile = match self.storage.get_profile_by_user_id(user_id) {
            Ok(Some(p)) => p,
            Ok(None) => {
                return Err(ApiError::NotFound);
            },
            Err(e) => {
                return Err(e);
            },
        };
        let role = match self.storage.get_role(user_id) {
            Ok(role) => role,
            Err(e) => {
                return Err(e);
            },
        };
        Ok(to_private_response(&profile, role))
    }

    /// A public profile, looked up by username after normalization.
    pub fn get_public_profile(&self, username: &str) -> (r: Result<PublicProfileResponse, ApiError>)
        requires
            self.store().inv(),
        ensures
            username_outcome(username@) matches Err(e) ==> (r matches Err(x) && x
                == validation_api_error(e)),
            username_outcome(username@) matches Ok((_, n)) ==> {
                &&& r matches Ok(resp) ==> exists|id: Id|
                    #[trigger] self.store().profiles().contains_key(id)
                        && self.store().profiles()[id].normalized_username@ == n
                        && public_response_of(resp, self.store().profiles()[id])
                &&& !username_claimed(self.store().profiles(), n) ==> r is Err
                &&& self.store().infallible() && username_claimed(self.store().profiles(), n) ==> r is Ok
            },
    {
        let valid = match validate_username(username) {
            Ok(v) => v,
            Err(e) => {
                return Err(ApiError::from(e));
            },
        };
        let profile = match self.storage.get_profile_by_username(valid.normalized.as_str()) {
            Ok(Some(p)) => p,
            Ok(None) => {
                return Err(ApiError::NotFound);
            },
            Err(e) => {
                return Err(e);
            },
        };
        proof {
            assert(self.store().profiles().contains_key(profile.user_id));
        }
        Ok(to_public_response(&profile))
    }
}

} // verus!
