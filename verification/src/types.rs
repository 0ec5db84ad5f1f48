//! Entity types of the service and their mathematical views.
//!
//! Executable types hold `String` and `Vec` fields; contracts speak of
//! their views, whose fields are `Seq<char>` and `Seq<UserId>`, so that a
//! clone and its original are equal at the specification level.

use vstd::prelude::*;

verus! {

/// Opaque caller identity, assigned and resolved by the transport layer.
/// The core only compares identities for equality and uses them as keys.
#[derive(Clone, Copy, PartialEq, Eq, Structural, Debug, Hash)]
pub struct UserId {
    pub id: u64,
}

/// Whether a post may be seen by callers other than its author.
#[derive(Clone, Copy, PartialEq, Eq, Structural, Debug)]
pub enum Visibility {
    Public,
    NonPublic,
}

/// Outcome of a follow or unfollow request.
#[derive(Clone, Copy, PartialEq, Eq, Structural, Debug)]
pub enum FollowResult {
    Success,
    AlreadyFollowing,
    NotFollowing,
    CannotFollowSelf,
}

/// A post: identified by a never-reused id, liked by a set of identities.
pub struct Post {
    pub id: u64,
    pub content: String,
    pub author: UserId,
    pub timestamp: u64,
    pub likes: Vec<UserId>,
    pub visibility: Visibility,
}

/// Specification-level value of a [`Post`].
pub struct PostView {
    pub id: u64,
    pub content: Seq<char>,
    pub author: UserId,
    pub timestamp: u64,
    pub likes: Seq<UserId>,
    pub visibility: Visibility,
}

impl View for Post {
    type V = PostView;

    open spec fn view(&self) -> PostView {
        PostView {
            id: self.id,
            content: self.content@,
            author: self.author,
            timestamp: self.timestamp,
            likes: self.likes@,
            visibility: self.visibility,
        }
    }
}

/// A user profile, keyed by the owning identity.
pub struct UserProfile {
    pub principal: UserId,
    pub username: String,
    pub avatar_url: String,
    pub bio: String,
}

/// Specification-level value of a [`UserProfile`].
pub struct ProfileView {
    pub principal: UserId,
    pub username: Seq<char>,
    pub avatar_url: Seq<char>,
    pub bio: Seq<char>,
}

impl View for UserProfile {
    type V = ProfileView;

    open spec fn view(&self) -> ProfileView {
        ProfileView {
            principal: self.principal,
            username: self.username@,
            avatar_url: self.avatar_url@,
            bio: self.bio@,
        }
    }
}

/// A comment; append-only, never checked against the post store.
pub struct Comment {
    pub post_id: u64,
    pub commenter: UserId,
    pub text: String,
    pub timestamp: u64,
}

/// Specification-level value of a [`Comment`].
pub struct CommentView {
    pub post_id: u64,
    pub commenter: UserId,
    pub text: Seq<char>,
    pub timestamp: u64,
}

impl View for Comment {
    type V = CommentView;

    open spec fn view(&self) -> CommentView {
        CommentView {
            post_id: self.post_id,
            commenter: self.commenter,
            text: self.text@,
            timestamp: self.timestamp,
        }
    }
}

/// The views of a sequence of posts.
pub open spec fn post_views(s: Seq<Post>) -> Seq<PostView> {
    s.map_values(|p: Post| p@)
}

/// The views of a sequence of profiles.
pub open spec fn profile_views(s: Seq<UserProfile>) -> Seq<ProfileView> {
    s.map_values(|p: UserProfile| p@)
}

/// The views of a sequence of comments.
pub open spec fn comment_views(s: Seq<Comment>) -> Seq<CommentView> {
    s.map_values(|c: Comment| c@)
}

/// Everything except `u`, as a predicate on identities.
pub open spec fn not_user(u: UserId) -> spec_fn(UserId) -> bool {
    |x: UserId| x != u
}

/// Whether `u` occurs in `v`.
pub fn contains_user(v: &Vec<UserId>, u: UserId) -> (r: bool)
    ensures
        r == v@.contains(u),
{
    let mut i: usize = 0;
    while i < v.len()
        invariant
            0 <= i <= v@.len(),
            forall|j: int| 0 <= j < i ==> v@[j] != u,
        decreases v@.len() - i,
    {
        if v[i] == u {
            proof {
                assert(v@[i as int] == u);
            }
            return true;
        }
        i = i + 1;
    }
    proof {
        if v@.contains(u) {
            let j = choose|j: int| 0 <= j < v@.len() && v@[j] == u;
            assert(false);
        }
    }
    false
}

/// The identities of `v` with every occurrence of `u` removed, in order.
pub fn remove_user(v: &Vec<UserId>, u: UserId) -> (r: Vec<UserId>)
    ensures
        r@ == v@.filter(not_user(u)),
{
    let mut r: Vec<UserId> = Vec::new();
    let mut i: usize = 0;
    proof {
        reveal(Seq::filter);
        assert(v@.take(0) =~= Seq::<UserId>::empty());
        assert(r@ =~= v@.take(0).filter(not_user(u)));
    }
    while i < v.len()
        invariant
            0 <= i <= v@.len(),
            r@ == v@.take(i as int).filter(not_user(u)),
        decreases v@.len() - i,
    {
        broadcast use Seq::lemma_filter_push;

        if !(v[i] == u) {
            r.push(v[i]);
        }
        proof {
            assert(v@.take(i + 1) =~= v@.take(i as int).push(v@[i as int]));
        }
        i = i + 1;
    }
    proof {
        assert(v@.take(v@.len() as int) =~= v@);
    }
    r
}

/// Copies a vector of identities element by element.
pub fn copy_ids(v: &Vec<UserId>) -> (r: Vec<UserId>)
    ensures
        r@ == v@,
{
    let mut r: Vec<UserId> = Vec::new();
    let mut i: usize = 0;
    while i < v.len()
        invariant
            0 <= i <= v@.len(),
            r@ == v@.take(i as int),
        decreases v@.len() - i,
    {
        r.push(v[i]);
        proof {
            assert(v@.take(i + 1 as int) =~= v@.take(i as int).push(v@[i as int]));
        }
        i = i + 1;
    }
    proof {
        assert(v@.take(v@.len() as int) =~= v@);
    }
    r
}

impl Clone for Post {
    /// A clone is equal to the original at the view level.
    fn clone(&self) -> (r: Self)
        ensures
            r@ == self@,
    {
        Post {
            id: self.id,
            content: self.content.clone(),
            author: self.author,
            timestamp: self.timestamp,
            likes: copy_ids(&self.likes),
            visibility: self.visibility,
        }
    }
}

impl Clone for UserProfile {
    /// A clone is equal to the original at the view level.
    fn clone(&self) -> (r: Self)
        ensures
            r@ == self@,
    {
        UserProfile {
            principal: self.principal,
            username: self.username.clone(),
            avatar_url: self.avatar_url.clone(),
            bio: self.bio.clone(),
        }
    }
}

impl Clone for Comment {
    /// A clone is equal to the original at the view level.
    fn clone(&self) -> (r: Self)
        ensures
            r@ == self@,
    {
        Comment {
            post_id: self.post_id,
            commenter: self.commenter,
            text: self.text.clone(),
            timestamp: self.timestamp,
        }
    }
}

} // verus!
