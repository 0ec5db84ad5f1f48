//! The whole service as one repository object owning the five tables,
//! with one method per exposed operation. The caller identity and the
//! current time arrive as explicit arguments; each method delegates to
//! the owning store and leaves the others untouched.

use vstd::prelude::*;

use crate::comments::CommentStore;
use crate::comments::by_post_pred;
use crate::feed::get_feed;
use crate::graph::SocialGraph;
use crate::graph::follow_model;
use crate::graph::unfollow_model;
use crate::posts::PostStore;
use crate::posts::contains_id;
use crate::posts::feed_pred;
use crate::posts::idx_of_id;
use crate::posts::post_of;
use crate::posts::toggled;
use crate::posts::visible_pred;
use crate::profiles::ProfileRegistry;
use crate::profiles::contains_principal;
use crate::profiles::idx_of_principal;
use crate::profiles::matches_pred;
use crate::profiles::stored_profile;
use crate::types::Comment;
use crate::types::CommentView;
use crate::types::FollowResult;
use crate::types::Post;
use crate::types::PostView;
use crate::types::UserId;
use crate::types::UserProfile;
use crate::types::Visibility;
use crate::types::comment_views;
use crate::types::post_views;
use crate::types::profile_views;

verus! {

/// The five tables of the service, under one owner.
pub struct Social {
    pub posts: PostStore,
    pub profiles: ProfileRegistry,
    pub comments: CommentStore,
    pub graph: SocialGraph,
}

impl Social {
    /// All store invariants at once.
    pub open spec fn wf(&self) -> bool {
        &&& self.posts.wf()
        &&& self.profiles.wf()
        &&& self.graph.wf()
    }

    /// A service with no posts, profiles, comments or follows.
    pub fn new() -> (s: Social)
        ensures
            s.wf(),
            s.posts@ == Seq::<PostView>::empty(),
            s.posts.next_id_spec() == 0,
            s.profiles@ == Seq::<crate::types::ProfileView>::empty(),
            s.comments@ == Seq::<CommentView>::empty(),
            s.graph@ == Seq::<crate::graph::Edge>::empty(),
    {
        Social {
            posts: PostStore::new(),
            profiles: ProfileRegistry::new(),
            comments: CommentStore::new(),
            graph: SocialGraph::new(),
        }
    }

    /// Creates a post for `caller`; see `PostStore::create_post`.
    pub fn create_post(
        &mut self,
        caller: UserId,
        content: String,
        visibility: Visibility,
        now: u64,
    ) -> (r: Post)
        requires
            old(self).wf(),
            old(self).posts.next_id_spec() < u64::MAX,
        ensures
            final(self).wf(),
            final(self).posts.next_id_spec() == old(self).posts.next_id_spec() + 1,
            r@ == (PostView {
                id: old(self).posts.next_id_spec(),
                content: content@,
                author: caller,
                timestamp: now,
                likes: Seq::<UserId>::empty(),
                visibility,
            }),
            final(self).posts@ == old(self).posts@.push(r@),
            final(self).profiles == old(self).profiles,
            final(self).comments == old(self).comments,
            final(self).graph == old(self).graph,
    {
        self.posts.create_post(caller, content, visibility, now)
    }

    /// Every post `caller` may see; see `PostStore::get_all_posts`.
    pub fn get_all_posts(&self, caller: UserId) -> (r: Vec<Post>)
        requires
            self.wf(),
        ensures
            post_views(r@) == self.posts@.filter(visible_pred(caller)),
    {
        self.posts.get_all_posts(caller)
    }

    /// Creates or replaces `caller`'s profile; see
    /// `ProfileRegistry::register_user`.
    pub fn register_user(&mut self, caller: UserId, username: String, avatar_url: String, bio: String)
        requires
            old(self).wf(),
        ensures
            final(self).wf(),
            contains_principal(old(self).profiles@, caller) ==> final(self).profiles@ == old(
                self,
            ).profiles@.update(
                idx_of_principal(old(self).profiles@, caller),
                stored_profile(caller, username@, avatar_url@, bio@),
            ),
            !contains_principal(old(self).profiles@, caller) ==> final(self).profiles@ == old(
                self,
            ).profiles@.push(stored_profile(caller, username@, avatar_url@, bio@)),
            final(self).posts == old(self).posts,
            final(self).comments == old(self).comments,
            final(self).graph == old(self).graph,
    {
        let _stored = self.profiles.register_user(caller, username, avatar_url, bio);
    }

    /// The profile stored for `caller`; see
    /// `ProfileRegistry::get_my_profile`.
    pub fn get_my_profile(&self, caller: UserId) -> (r: Option<UserProfile>)
        requires
            self.wf(),
        ensures
            r is Some <==> contains_principal(self.profiles@, caller),
            r matches Some(p) ==> p@ == crate::profiles::profile_of(self.profiles@, caller),
    {
        self.profiles.get_my_profile(caller)
    }

    /// Updates `caller`'s profile if it exists; see
    /// `ProfileRegistry::update_profile`.
    pub fn update_profile(&mut self, caller: UserId, username: String, avatar_url: String, bio: String)
        requires
            old(self).wf(),
        ensures
            final(self).wf(),
            !contains_principal(old(self).profiles@, caller) ==> final(self).profiles@ == old(
                self,
            ).profiles@,
            contains_principal(old(self).profiles@, caller) ==> final(self).profiles@ == old(
                self,
            ).profiles@.update(
                idx_of_principal(old(self).profiles@, caller),
                stored_profile(caller, username@, avatar_url@, bio@),
            ),
            final(self).posts == old(self).posts,
            final(self).comments == old(self).comments,
            final(self).graph == old(self).graph,
    {
        self.profiles.update_profile(caller, username, avatar_url, bio)
    }

    /// Flips `caller`'s like on a post; see
    /// `PostStore::toggle_like_post`.
    pub fn toggle_like_post(&mut self, caller: UserId, post_id: u64) -> (r: Option<Post>)
        requires
            old(self).wf(),
        ensures
            final(self).wf(),
            final(self).posts.next_id_spec() == old(self).posts.next_id_spec(),
            !contains_id(old(self).posts@, post_id) ==> r is None && final(self).posts@ == old(
                self,
            ).posts@,
            contains_id(old(self).posts@, post_id) ==> ({
                let i = idx_of_id(old(self).posts@, post_id);
                let pv = old(self).posts@[i];
                let npv = (PostView { likes: toggled(pv.likes, caller), ..pv });
                &&& final(self).posts@ == old(self).posts@.update(i, npv)
                &&& r matches Some(p) && p@ == npv
            }),
            final(self).profiles == old(self).profiles,
            final(self).comments == old(self).comments,
            final(self).graph == old(self).graph,
    {
        self.posts.toggle_like_post(post_id, caller)
    }

    /// Appends a comment by `caller`; see `CommentStore::add_comment`.
    pub fn add_comment(&mut self, caller: UserId, post_id: u64, text: String, now: u64)
        requires
            old(self).wf(),
        ensures
            final(self).wf(),
            final(self).comments@ == old(self).comments@.push(
                (CommentView { post_id, commenter: caller, text: text@, timestamp: now }),
            ),
            final(self).posts == old(self).posts,
            final(self).profiles == old(self).profiles,
            final(self).graph == old(self).graph,
    {
        self.comments.add_comment(post_id, caller, text, now)
    }

    /// Every comment on a post; see `CommentStore::get_comments`.
    pub fn get_comments(&self, post_id: u64) -> (r: Vec<Comment>)
        ensures
            comment_views(r@) == self.comments@.filter(by_post_pred(post_id)),
    {
        self.comments.get_comments(post_id)
    }

    /// Edits a post, author only; see `PostStore::edit_post`.
    pub fn edit_post(&mut self, caller: UserId, post_id: u64, new_content: String) -> (r: Option<
        Post,
    >)
        requires
            old(self).wf(),
        ensures
            final(self).wf(),
            final(self).posts.next_id_spec() == old(self).posts.next_id_spec(),
            (!contains_id(old(self).posts@, post_id) || post_of(old(self).posts@, post_id).author
                != caller) ==> r is None && final(self).posts@ == old(self).posts@,
            contains_id(old(self).posts@, post_id) && post_of(old(self).posts@, post_id).author
                == caller ==> ({
                let i = idx_of_id(old(self).posts@, post_id);
                let npv = (PostView { content: new_content@, ..old(self).posts@[i] });
                &&& final(self).posts@ == old(self).posts@.update(i, npv)
                &&& r matches Some(p) && p@ == npv
            }),
            final(self).profiles == old(self).profiles,
            final(self).comments == old(self).comments,
            final(self).graph == old(self).graph,
    {
        self.posts.edit_post(post_id, caller, new_content)
    }

    /// Deletes a post, author only; see `PostStore::delete_post`.
    pub fn delete_post(&mut self, caller: UserId, post_id: u64) -> (r: bool)
        requires
            old(self).wf(),
        ensures
            final(self).wf(),
            final(self).posts.next_id_spec() == old(self).posts.next_id_spec(),
            (!contains_id(old(self).posts@, post_id) || post_of(old(self).posts@, post_id).author
                != caller) ==> !r && final(self).posts@ == old(self).posts@,
            contains_id(old(self).posts@, post_id) && post_of(old(self).posts@, post_id).author
                == caller ==> r && final(self).posts@ == old(self).posts@.remove(
                idx_of_id(old(self).posts@, post_id),
            ),
            final(self).profiles == old(self).profiles,
            final(self).comments == old(self).comments,
            final(self).graph == old(self).graph,
    {
        self.posts.delete_post(post_id, caller)
    }

    /// `caller` follows `target`; see `SocialGraph::follow_user`.
    pub fn follow_user(&mut self, caller: UserId, target: UserId) -> (r: FollowResult)
        requires
            old(self).wf(),
        ensures
            final(self).wf(),
            (final(self).graph@, r) == follow_model(old(self).graph@, caller, target),
            final(self).posts == old(self).posts,
            final(self).profiles == old(self).profiles,
            final(self).comments == old(self).comments,
    {
        self.graph.follow_user(caller, target)
    }

    /// `caller` unfollows `target`; see `SocialGraph::unfollow_user`.
    pub fn unfollow_user(&mut self, caller: UserId, target: UserId) -> (r: FollowResult)
        requires
            old(self).wf(),
        ensures
            final(self).wf(),
            (final(self).graph@, r) == unfollow_model(old(self).graph@, caller, target),
            final(self).posts == old(self).posts,
            final(self).profiles == old(self).profiles,
            final(self).comments == old(self).comments,
    {
        self.graph.unfollow_user(caller, target)
    }

    /// Who `user` follows; see `SocialGraph::get_following`.
    pub fn get_following(&self, user: UserId) -> (r: Vec<UserId>)
        ensures
            r@ == self.graph.following_of(user),
    {
        self.graph.get_following(user)
    }

    /// Who follows `user`; see `SocialGraph::get_followers`.
    pub fn get_followers(&self, user: UserId) -> (r: Vec<UserId>)
        ensures
            r@ == self.graph.followers_of(user),
    {
        self.graph.get_followers(user)
    }

    /// `caller`'s feed; see `feed::get_feed`.
    pub fn get_feed(&self, caller: UserId) -> (r: Vec<Post>)
        requires
            self.wf(),
        ensures
            post_views(r@) == self.posts@.filter(
                feed_pred(self.graph.following_of(caller), caller),
            ),
    {
        get_feed(&self.posts, &self.graph, caller)
    }

    /// Profiles matching a username query; see
    /// `ProfileRegistry::search_users`.
    pub fn search_users(&self, query: String) -> (r: Vec<UserProfile>)
        ensures
            profile_views(r@) == self.profiles@.filter(matches_pred(query@)),
    {
        self.profiles.search_users(query)
    }
}

} // verus!
