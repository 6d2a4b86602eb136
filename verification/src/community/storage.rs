//! Community storage: profiles by user id, a username index and roles.
//!
//! Two invariants hold of every state: one profile per user id, and one
//! user id per normalized username.

use vstd::prelude::*;
use crate::clock::Id;
use crate::community::models::{CommunityProfile, CommunityRole};
use crate::error::ApiError;
use crate::table::Table;
use std::collections::HashMap;

verus! {

broadcast use vstd::std_specs::hash::group_hash_axioms;

/// Some profile holds the normalized username `n`.
pub open spec fn username_claimed(ps: Map<Id, CommunityProfile>, n: Seq<char>) -> bool {
    exists|id: Id| #[trigger] ps.contains_key(id) && ps[id].normalized_username@ == n
}

/// The profile of `id`, if any.
pub open spec fn profile_of(ps: Map<Id, CommunityProfile>, id: Id) -> Option<CommunityProfile> {
    if ps.contains_key(id) {
        Some(ps[id])
    } else {
        None
    }
}

/// The role of `id`; a user without a role record is a plain `User`.
pub open spec fn role_of(roles: Map<Id, CommunityRole>, id: Id) -> CommunityRole {
    if roles.contains_key(id) {
        roles[id]
    } else {
        CommunityRole::User
    }
}

/// Profiles are filed under their own user id, and no two of them share a
/// normalized username.
pub open spec fn profiles_consistent(ps: Map<Id, CommunityProfile>) -> bool {
    &&& forall|id: Id| #[trigger] ps.contains_key(id) ==> ps[id].user_id == id
    &&& forall|a: Id, b: Id|
        #[trigger] ps.contains_key(a) && #[trigger] ps.contains_key(b) && a != b
            ==> ps[a].normalized_username@ != ps[b].normalized_username@
}

/// Persistent storage for community profiles and roles.
///
/// `profiles` and `roles` are the stored state; `inv` is the
/// implementation's own invariant. An operation that fails leaves the state
/// as it was.
pub trait CommunityStorage {
    spec fn inv(&self) -> bool;

    /// A backend that never fails where this trait says so.
    spec fn infallible(&self) -> bool;

    spec fn profiles(&self) -> Map<Id, CommunityProfile>;

    spec fn roles(&self) -> Map<Id, CommunityRole>;

    /// Profiles are filed under their own user id and no two share a
    /// normalized username.
    proof fn lemma_profiles_consistent(&self)
        requires
            self.inv(),
        ensures
            profiles_consistent(self.profiles()),
    ;

    /// Create a brand-new profile; `Conflict` when the user already has a
    /// profile or the normalized username is taken.
    fn create_profile(&mut self, profile: &CommunityProfile) -> (r: Result<(), ApiError>)
        requires
            old(self).inv(),
        ensures
            final(self).inv(),
            final(self).roles() == old(self).roles(),
            r is Ok ==> {
                &&& !old(self).profiles().contains_key(profile.user_id)
                &&& !username_claimed(old(self).profiles(), profile.normalized_username@)
                &&& final(self).profiles() == old(self).profiles().insert(profile.user_id, *profile)
            },
            r is Err ==> final(self).profiles() == old(self).profiles(),
            old(self).profiles().contains_key(profile.user_id) || username_claimed(
                old(self).profiles(),
                profile.normalized_username@,
            ) ==> (r matches Err(e) && e == ApiError::Conflict),
            final(self).infallible() == old(self).infallible(),
            old(self).infallible() && !old(self).profiles().contains_key(profile.user_id) && !username_claimed(
                old(self).profiles(),
                profile.normalized_username@,
            ) ==> r is Ok,
    ;

    fn get_profile_by_user_id(&self, user_id: &Id) -> (r: Result<Option<CommunityProfile>, ApiError>)
        requires
            self.inv(),
        ensures
            r matches Ok(o) ==> o == profile_of(self.profiles(), *user_id),
            self.infallible() ==> r is Ok,
    ;

    fn get_profile_by_username(&self, normalized_username: &str) -> (r: Result<
        Option<CommunityProfile>,
        ApiError,
    >)
        requires
            self.inv(),
        ensures
            r matches Ok(Some(p)) ==> profile_of(self.profiles(), p.user_id) == Some(p)
                && p.normalized_username@ == normalized_username@,
            r matches Ok(None) ==> !username_claimed(self.profiles(), normalized_username@),
            self.infallible() ==> r is Ok,
    ;

    /// Replace the mutable fields of an existing profile; `NotFound` when
    /// there is none, `Conflict` when the normalized username differs.
    fn update_profile(&mut self, profile: &CommunityProfile) -> (r: Result<(), ApiError>)
        requires
            old(self).inv(),
        ensures
            final(self).inv(),
            final(self).roles() == old(self).roles(),
            r is Ok ==> {
                &&& old(self).profiles().contains_key(profile.user_id)
                &&& old(self).profiles()[profile.user_id].normalized_username@
                    == profile.normalized_username@
                &&& final(self).profiles() == old(self).profiles().insert(profile.user_id, *profile)
            },
            r is Err ==> final(self).profiles() == old(self).profiles(),
            !old(self).profiles().contains_key(profile.user_id) ==> (r matches Err(e) && e
                == ApiError::NotFound),
            old(self).profiles().contains_key(profile.user_id)
                && old(self).profiles()[profile.user_id].normalized_username@
                != profile.normalized_username@ ==> (r matches Err(e) && e == ApiError::Conflict),
            final(self).infallible() == old(self).infallible(),
            old(self).infallible() && old(self).profiles().contains_key(profile.user_id)
                && old(self).profiles()[profile.user_id].normalized_username@ == profile.normalized_username@
                ==> r is Ok,
    ;

    fn get_role(&self, user_id: &Id) -> (r: Result<CommunityRole, ApiError>)
        requires
            self.inv(),
        ensures
            r matches Ok(role) ==> role == role_of(self.roles(), *user_id),
            self.infallible() ==> r is Ok,
    ;

    fn set_role(&mut self, user_id: &Id, role: CommunityRole) -> (r: Result<(), ApiError>)
        requires
            old(self).inv(),
        ensures
            final(self).inv(),
            final(self).profiles() == old(self).profiles(),
            r is Ok ==> final(self).roles() == old(self).roles().insert(*user_id, role),
            r is Err ==> final(self).roles() == old(self).roles(),
    ;
}

/// In-memory community storage for development and tests.
pub struct InMemoryCommunityStorage {
    profiles: HashMap<Id, CommunityProfile>,
    username_index: Table<String, Id>,
    roles: HashMap<Id, CommunityRole>,
}

impl InMemoryCommunityStorage {
    /// The username index agrees with the profiles in both directions.
    pub closed spec fn wf(&self) -> bool {
        let ps = self.profiles.view();
        let ix = self.username_index.view();
        &&& self.username_index.wf()
        &&& forall|id: Id| #[trigger] ps.contains_key(id) ==> {
            &&& ps[id].user_id == id
            &&& ix.contains_key(ps[id].normalized_username@)
            &&& ix[ps[id].normalized_username@] == id
        }
        &&& forall|n: Seq<char>| #[trigger] ix.contains_key(n) ==> {
            &&& ps.contains_key(ix[n])
            &&& ps[ix[n]].normalized_username@ == n
        }
    }

    pub closed spec fn profile_map(&self) -> Map<Id, CommunityProfile> {
        self.profiles.view()
    }

    pub closed spec fn role_map(&self) -> Map<Id, CommunityRole> {
        self.roles.view()
    }

    pub fn new() -> (r: Self)
        ensures
            r.wf(),
            r.profile_map().dom() == Set::<Id>::empty(),
            r.role_map().dom() == Set::<Id>::empty(),
    {
        InMemoryCommunityStorage {
            profiles: HashMap::new(),
            username_index: Table::new(),
            roles: HashMap::new(),
        }
    }

    /// Number of stored profiles.
    pub fn profile_count(&self) -> (r: usize)
        requires
            self.wf(),
        ensures
            r == self.profile_map().dom().len(),
    {
        self.profiles.len()
    }

    proof fn lemma_claimed_iff_indexed(&self, n: Seq<char>)
        requires
            self.wf(),
        ensures
            username_claimed(self.profile_map(), n) == self.username_index.view().contains_key(n),
    {
        let ps = self.profiles.view();
        if username_claimed(ps, n) {
            let id = choose|id: Id| #[trigger] ps.contains_key(id) && ps[id].normalized_username@ == n;
            assert(ps.contains_key(id));
        }
        if self.username_index.view().contains_key(n) {
            let id = self.username_index.view()[n];
            assert(ps.contains_key(id) && ps[id].normalized_username@ == n);
        }
    }

    /// One profile per user id and one user id per normalized username.
    pub proof fn lemma_consistent(&self)
        requires
            self.wf(),
        ensures
            profiles_consistent(self.profile_map()),
    {
        let ps = self.profiles.view();
        let ix = self.username_index.view();
        assert forall|a: Id, b: Id|
            #[trigger] ps.contains_key(a) && #[trigger] ps.contains_key(b) && a != b implies ps[a].normalized_username@
            != ps[b].normalized_username@ by {
            assert(ix[ps[a].normalized_username@] == a);
            assert(ix[ps[b].normalized_username@] == b);
        }
    }
}

impl CommunityStorage for InMemoryCommunityStorage {
    open spec fn inv(&self) -> bool {
        self.wf()
    }

    open spec fn infallible(&self) -> bool {
        true
    }

    open spec fn profiles(&self) -> Map<Id, CommunityProfile> {
        self.profile_map()
    }

    open spec fn roles(&self) -> Map<Id, CommunityRole> {
        self.role_map()
    }

    proof fn lemma_profiles_consistent(&self) {
        self.lemma_consistent();
    }

    fn create_profile(&mut self, profile: &CommunityProfile) -> (r: Result<(), ApiError>)
        ensures
            r is Ok <==> !old(self).profiles().contains_key(profile.user_id) && !username_claimed(
                old(self).profiles(),
                profile.normalized_username@,
            ),
    {
        proof {
            self.lemma_claimed_iff_indexed(profile.normalized_username@);
        }
        if self.profiles.contains_key(&profile.user_id) {
            return Err(ApiError::Conflict);
        }
        if self.username_index.contains_key(&profile.normalized_username) {
            return Err(ApiError::Conflict);
        }
        let ghost ps0 = self.profiles.view();
        let ghost ix0 = self.username_index.view();
        let id = profile.user_id;
        self.username_index.insert(profile.normalized_username.clone(), id);
        let _ = self.profiles.insert(id, profile.copy());
        proof {
            let ps = self.profiles.view();
            let ix = self.username_index.view();
            let n = profile.normalized_username@;
            assert forall|i: Id| #[trigger] ps.contains_key(i) implies {
                &&& ps[i].user_id == i
                &&& ix.contains_key(ps[i].normalized_username@)
                &&& ix[ps[i].normalized_username@] == i
            } by {
                if i != id {
                    assert(ps0.contains_key(i));
                    assert(ix0.contains_key(ps0[i].normalized_username@));
                }
            }
            assert forall|m: Seq<char>| #[trigger] ix.contains_key(m) implies {
                &&& ps.contains_key(ix[m])
                &&& ps[ix[m]].normalized_username@ == m
            } by {
                if m != n {
                    assert(ix0.contains_key(m));
                    assert(ps0.contains_key(ix0[m]));
                }
            }
        }
        Ok(())
    }

    fn get_profile_by_user_id(&self, user_id: &Id) -> (r: Result<Option<CommunityProfile>, ApiError>)
        ensures
            (r matches Ok(o) && o == profile_of(self.profiles(), *user_id)),
    {
        match self.profiles.get(user_id) {
            Some(p) => Ok(Some(p.copy())),
            None => Ok(None),
        }
    }

    fn get_profile_by_username(&self, normalized_username: &str) -> (r: Result<
        Option<CommunityProfile>,
        ApiError,
    >)
        ensures
            r is Ok,
            r matches Ok(Some(_)) <==> username_claimed(self.profiles(), normalized_username@),
    {
        proof {
            self.lemma_claimed_iff_indexed(normalized_username@);
        }
        let key = normalized_username.to_owned();
        let id = match self.username_index.get(&key) {
            Some(id) => *id,
            None => {
                return Ok(None);
            },
        };
        match self.profiles.get(&id) {
            Some(p) => Ok(Some(p.copy())),
            None => Ok(None),
        }
    }

    fn update_profile(&mut self, profile: &CommunityProfile) -> (r: Result<(), ApiError>)
        ensures
            r is Ok <==> old(self).profiles().contains_key(profile.user_id)
                && old(self).profiles()[profile.user_id].normalized_username@
                == profile.normalized_username@,
    {
        let id = profile.user_id;
        let same = match self.profiles.get(&id) {
            None => {
                return Err(ApiError::NotFound);
            },
            Some(existing) => existing.normalized_username == profile.normalized_username,
        };
        if !same {
            return Err(ApiError::Conflict);
        }
        let ghost ps0 = self.profiles.view();
        let _ = self.profiles.insert(id, profile.copy());
        proof {
            let ps = self.profiles.view();
            let ix = self.username_index.view();
            assert forall|i: Id| #[trigger] ps.contains_key(i) implies {
                &&& ps[i].user_id == i
                &&& ix.contains_key(ps[i].normalized_username@)
                &&& ix[ps[i].normalized_username@] == i
            } by {
                assert(ps0.contains_key(i));
            }
            assert forall|m: Seq<char>| #[trigger] ix.contains_key(m) implies {
                &&& ps.contains_key(ix[m])
                &&& ps[ix[m]].normalized_username@ == m
            } by {
                assert(ps0.contains_key(ix[m]));
            }
        }
        Ok(())
    }

    fn get_role(&self, user_id: &Id) -> (r: Result<CommunityRole, ApiError>)
        ensures
            (r matches Ok(role) && role == role_of(self.roles(), *user_id)),
    {
        match self.roles.get(user_id) {
            Some(role) => Ok(*role),
            None => Ok(CommunityRole::default()),
        }
    }

    fn set_role(&mut self, user_id: &Id, role: CommunityRole) -> (r: Result<(), ApiError>)
        ensures
            r is Ok,
    {
        let _ = self.roles.insert(*user_id, role);
        Ok(())
    }
}

/// In every state of the in-memory storage, profiles are filed under their
/// own user id and no two profiles share a normalized username.
pub proof fn law_usernames_unique(s: &InMemoryCommunityStorage)
    requires
        s.wf(),
    ensures
        profiles_consistent(s.profiles()),
{
    s.lemma_consistent();
}

} // verus!
