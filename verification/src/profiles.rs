//! The profile registry: registration with an avatar fallback, point
//! lookup, in-place update, and case-insensitive username search.

use vstd::prelude::*;

use crate::seqs::lemma_remove_insert_update;
use crate::text::blank_spec;
use crate::text::contains_seq;
use crate::text::is_blank;
use crate::text::lower_of;
use crate::text::str_contains;
use crate::text::to_lower;
use crate::types::ProfileView;
use crate::types::UserId;
use crate::types::UserProfile;
use crate::types::profile_views;

verus! {

/// The fixed URL stored when a submitted avatar URL is blank.
pub open spec fn default_avatar_spec() -> Seq<char> {
    "https://i.ibb.co/Pr3bY4X/default-avatar.png"@
}

/// The avatar URL actually stored for a submission: the submission, or
/// the fixed default when the submission is blank.
pub open spec fn chosen_avatar(submitted: Seq<char>) -> Seq<char> {
    if blank_spec(submitted) {
        default_avatar_spec()
    } else {
        submitted
    }
}

/// The profile record stored for a registration or update by `caller`.
pub open spec fn stored_profile(
    caller: UserId,
    username: Seq<char>,
    avatar_url: Seq<char>,
    bio: Seq<char>,
) -> ProfileView {
    ProfileView { principal: caller, username, avatar_url: chosen_avatar(avatar_url), bio }
}

/// Some stored profile belongs to `u`.
pub open spec fn contains_principal(s: Seq<ProfileView>, u: UserId) -> bool {
    exists|i: int| 0 <= i < s.len() && s[i].principal == u
}

/// The index of `u`'s profile (meaningful only under `contains_principal`).
pub open spec fn idx_of_principal(s: Seq<ProfileView>, u: UserId) -> int {
    choose|i: int| 0 <= i < s.len() && s[i].principal == u
}

/// `u`'s stored profile (meaningful only under `contains_principal`).
pub open spec fn profile_of(s: Seq<ProfileView>, u: UserId) -> ProfileView {
    s[idx_of_principal(s, u)]
}

/// The profiles whose username contains the query, case-insensitively,
/// as a predicate.
pub open spec fn matches_pred(query: Seq<char>) -> spec_fn(ProfileView) -> bool {
    |p: ProfileView| contains_seq(lower_of(p.username), lower_of(query))
}

/// The fixed avatar URL used when a submitted one is blank.
pub fn default_avatar_url() -> (r: String)
    ensures
        r@ == default_avatar_spec(),
{
    "https://i.ibb.co/Pr3bY4X/default-avatar.png".to_owned()
}

/// Owns every user profile, keyed by the owning identity.
pub struct ProfileRegistry {
    profiles: Vec<UserProfile>,
}

impl View for ProfileRegistry {
    type V = Seq<ProfileView>;

    /// The stored profiles, in order of first registration.
    closed spec fn view(&self) -> Seq<ProfileView> {
        profile_views(self.profiles@)
    }
}

impl ProfileRegistry {
    /// Registry invariant: one profile per identity.
    pub open spec fn wf(&self) -> bool {
        forall|i: int, j: int|
            0 <= i < j < self@.len() ==> self@[i].principal != self@[j].principal
    }

    /// An empty registry.
    pub fn new() -> (s: ProfileRegistry)
        ensures
            s@ == Seq::<ProfileView>::empty(),
            s.wf(),
    {
        let s = ProfileRegistry { profiles: Vec::new() };
        proof {
            assert(s@ =~= Seq::<ProfileView>::empty());
        }
        s
    }

    /// Two stored profiles of the same identity stand at the same index.
    proof fn lemma_idx_of_found(&self, u: UserId, i: int)
        requires
            self.wf(),
            0 <= i < self@.len(),
            self@[i].principal == u,
        ensures
            contains_principal(self@, u),
            idx_of_principal(self@, u) == i,
            profile_of(self@, u) == self@[i],
    {
        assert(contains_principal(self@, u));
        let j = idx_of_principal(self@, u);
        assert(0 <= j < self@.len() && self@[j].principal == u);
    }

    /// The position of `u`'s profile, if one is stored.
    fn find_index(&self, u: UserId) -> (r: Option<usize>)
        requires
            self.wf(),
        ensures
            r is Some <==> contains_principal(self@, u),
            r matches Some(i) ==> 0 <= i < self@.len() && self@[i as int].principal == u
                && idx_of_principal(self@, u) == i,
    {
        let mut i: usize = 0;
        while i < self.profiles.len()
            invariant
                0 <= i <= self.profiles@.len(),
                self@.len() == self.profiles@.len(),
                forall|j: int| 0 <= j < i ==> self@[j].principal != u,
                self.wf(),
            decreases self.profiles@.len() - i,
        {
            if self.profiles[i].principal == u {
                proof {
                    self.lemma_idx_of_found(u, i as int);
                }
                return Some(i);
            }
            i = i + 1;
        }
        proof {
            assert(!contains_principal(self@, u));
        }
        None
    }

    /// Creates or fully replaces `caller`'s profile; a blank avatar URL
    /// falls back to the fixed default. Returns the stored profile.
    pub fn register_user(
        &mut self,
        caller: UserId,
        username: String,
        avatar_url: String,
        bio: String,
    ) -> (r: UserProfile)
        requires
            old(self).wf(),
        ensures
            final(self).wf(),
            r@ == stored_profile(caller, username@, avatar_url@, bio@),
            contains_principal(old(self)@, caller) ==> final(self)@ == old(self)@.update(
                idx_of_principal(old(self)@, caller),
                r@,
            ),
            !contains_principal(old(self)@, caller) ==> final(self)@ == old(self)@.push(r@),
    {
        let avatar = if is_blank(avatar_url.as_str()) {
            default_avatar_url()
        } else {
            avatar_url
        };
        let profile = UserProfile { principal: caller, username, avatar_url: avatar, bio };
        let r = profile.clone();
        match self.find_index(caller) {
            None => {
                self.profiles.push(profile);
                proof {
                    assert(final(self)@ =~= old(self)@.push(r@));
                    assert(forall|k: int|
                        0 <= k < old(self)@.len() ==> final(self)@[k] == old(self)@[k]);
                }
            },
            Some(i) => {
                let ghost prev = self.profiles@;
                let _old_profile = self.profiles.remove(i);
                self.profiles.insert(i, profile);
                proof {
                    lemma_remove_insert_update(prev, i as int, prev[i as int]);
                    assert(final(self)@ =~= old(self)@.update(i as int, r@));
                    assert(final(self).wf()) by {
                        assert(forall|k: int|
                            0 <= k < old(self)@.len() && k != i ==> final(self)@[k] == old(
                                self,
                            )@[k]);
                        assert(final(self)@[i as int].principal == old(self)@[i as int].principal);
                    }
                }
            },
        }
        r
    }

    /// The profile stored for `caller`, or absent when none exists.
    pub fn get_my_profile(&self, caller: UserId) -> (r: Option<UserProfile>)
        requires
            self.wf(),
        ensures
            r is Some <==> contains_principal(self@, caller),
            r matches Some(p) ==> p@ == profile_of(self@, caller),
    {
        match self.find_index(caller) {
            None => None,
            Some(i) => Some(self.profiles[i].clone()),
        }
    }

    /// Replaces username, avatar URL (with the blank fallback) and bio of
    /// `caller`'s profile, if one exists; otherwise a silent no-op.
    pub fn update_profile(
        &mut self,
        caller: UserId,
        username: String,
        avatar_url: String,
        bio: String,
    )
        requires
            old(self).wf(),
        ensures
            final(self).wf(),
            !contains_principal(old(self)@, caller) ==> final(self)@ == old(self)@,
            contains_principal(old(self)@, caller) ==> final(self)@ == old(self)@.update(
                idx_of_principal(old(self)@, caller),
                stored_profile(caller, username@, avatar_url@, bio@),
            ),
    {
        match self.find_index(caller) {
            None => {},
            Some(i) => {
                let avatar = if is_blank(avatar_url.as_str()) {
                    default_avatar_url()
                } else {
                    avatar_url
                };
                let profile = UserProfile { principal: caller, username, avatar_url: avatar, bio };
                let ghost prev = self.profiles@;
                let _old_profile = self.profiles.remove(i);
                self.profiles.insert(i, profile);
                proof {
                    lemma_remove_insert_update(prev, i as int, prev[i as int]);
                    assert(final(self)@ =~= old(self)@.update(
                        i as int,
                        stored_profile(caller, username@, avatar_url@, bio@),
                    ));
                    assert(final(self).wf()) by {
                        assert(forall|k: int|
                            0 <= k < old(self)@.len() && k != i ==> final(self)@[k] == old(
                                self,
                            )@[k]);
                        assert(final(self)@[i as int].principal == old(self)@[i as int].principal);
                    }
                }
            },
        }
    }

    /// Every profile whose username contains `query`, case-insensitively,
    /// in registration order.
    pub fn search_users(&self, query: String) -> (r: Vec<UserProfile>)
        ensures
            profile_views(r@) == self@.filter(matches_pred(query@)),
    {
        let query_low = to_lower(query.as_str());
        let mut r: Vec<UserProfile> = Vec::new();
        let mut i: usize = 0;
        proof {
            reveal(Seq::filter);
            assert(self@.take(0) =~= Seq::<ProfileView>::empty());
            assert(profile_views(r@) =~= self@.take(0).filter(matches_pred(query@)));
        }
        while i < self.profiles.len()
            invariant
                0 <= i <= self.profiles@.len(),
                self@.len() == self.profiles@.len(),
                query_low@ == lower_of(query@),
                profile_views(r@) == self@.take(i as int).filter(matches_pred(query@)),
            decreases self.profiles@.len() - i,
        {
            broadcast use Seq::lemma_filter_push;

            let name_low = to_lower(self.profiles[i].username.as_str());
            let ghost prev = r@;
            if str_contains(name_low.as_str(), query_low.as_str()) {
                let c = self.profiles[i].clone();
                r.push(c);
                proof {
                    assert(profile_views(r@) =~= profile_views(prev).push(self@[i as int]));
                }
            }
            proof {
                assert(self@.take(i + 1) =~= self@.take(i as int).push(self@[i as int]));
            }
            i = i + 1;
        }
        proof {
            assert(self@.take(self@.len() as int) =~= self@);
        }
        r
    }
}

} // verus!
