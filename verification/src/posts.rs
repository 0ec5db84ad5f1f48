//! The post store: creation, visibility-filtered listing, like toggling,
//! author-only editing and deletion.

use vstd::prelude::*;

use crate::seqs::lemma_filter_all;
use crate::seqs::lemma_filter_contains_iff;
use crate::seqs::lemma_filter_no_duplicates;
use crate::seqs::lemma_remove_insert_update;
use crate::types::Post;
use crate::types::PostView;
use crate::types::UserId;
use crate::types::Visibility;
use crate::types::contains_user;
use crate::types::not_user;
use crate::types::post_views;
use crate::types::remove_user;

verus! {

/// True when `caller` may see the post: it is public, or their own.
pub open spec fn visible_to(pv: PostView, caller: UserId) -> bool {
    pv.visibility == Visibility::Public || pv.author == caller
}

/// The visibility predicate of `caller`, as a function value.
pub open spec fn visible_pred(caller: UserId) -> spec_fn(PostView) -> bool {
    |pv: PostView| visible_to(pv, caller)
}

/// The public posts, as a predicate.
pub open spec fn public_pred() -> spec_fn(PostView) -> bool {
    |pv: PostView| pv.visibility == Visibility::Public
}

/// The posts authored by `c`, as a predicate.
pub open spec fn authored_pred(c: UserId) -> spec_fn(PostView) -> bool {
    |pv: PostView| pv.author == c
}

/// The feed predicate for a caller following `fol`: a post appears
/// exactly when its author is the caller or followed by the caller, and
/// it is public. Unlike `visible_pred`, the caller's own non-public
/// posts are excluded.
pub open spec fn feed_pred(fol: Seq<UserId>, caller: UserId) -> spec_fn(PostView) -> bool {
    |pv: PostView| (pv.author == caller || fol.contains(pv.author)) && pv.visibility
        == Visibility::Public
}

/// Some stored post has id `id`.
pub open spec fn contains_id(s: Seq<PostView>, id: u64) -> bool {
    exists|i: int| 0 <= i < s.len() && s[i].id == id
}

/// The index of the post with id `id` (meaningful only under `contains_id`).
pub open spec fn idx_of_id(s: Seq<PostView>, id: u64) -> int {
    choose|i: int| 0 <= i < s.len() && s[i].id == id
}

/// The stored post with id `id` (meaningful only under `contains_id`).
pub open spec fn post_of(s: Seq<PostView>, id: u64) -> PostView {
    s[idx_of_id(s, id)]
}

/// The like set after `u` toggles it: `u` is removed if present,
/// appended otherwise.
pub open spec fn toggled(likes: Seq<UserId>, u: UserId) -> Seq<UserId> {
    if likes.contains(u) {
        likes.filter(not_user(u))
    } else {
        likes.push(u)
    }
}

/// Owns every post, keyed by a monotonically assigned id.
pub struct PostStore {
    posts: Vec<Post>,
    next_id: u64,
}

impl View for PostStore {
    type V = Seq<PostView>;

    /// The stored posts, in order of creation.
    closed spec fn view(&self) -> Seq<PostView> {
        post_views(self.posts@)
    }
}

impl PostStore {
    /// The id the next created post will receive.
    pub closed spec fn next_id_spec(&self) -> u64 {
        self.next_id
    }

    /// Store invariant: ids are strictly increasing in creation order,
    /// every stored id is below the counter, and no like set holds an
    /// identity twice.
    pub open spec fn wf(&self) -> bool {
        &&& forall|i: int, j: int| 0 <= i < j < self@.len() ==> self@[i].id < self@[j].id
        &&& forall|i: int| 0 <= i < self@.len() ==> (#[trigger] self@[i].id) < self.next_id_spec()
        &&& forall|i: int| 0 <= i < self@.len() ==> (#[trigger] self@[i].likes).no_duplicates()
    }

    /// The value of the id counter.
    pub fn next_post_id(&self) -> (r: u64)
        ensures
            r == self.next_id_spec(),
    {
        self.next_id
    }

    /// An empty store whose counter starts at zero.
    pub fn new() -> (s: PostStore)
        ensures
            s@ == Seq::<PostView>::empty(),
            s.next_id_spec() == 0,
            s.wf(),
    {
        let s = PostStore { posts: Vec::new(), next_id: 0 };
        proof {
            assert(s@ =~= Seq::<PostView>::empty());
        }
        s
    }

    /// Two stored posts with the same id stand at the same index.
    proof fn lemma_idx_of_found(&self, id: u64, i: int)
        requires
            self.wf(),
            0 <= i < self@.len(),
            self@[i].id == id,
        ensures
            contains_id(self@, id),
            idx_of_id(self@, id) == i,
            post_of(self@, id) == self@[i],
    {
        assert(contains_id(self@, id));
        let j = idx_of_id(self@, id);
        assert(0 <= j < self@.len() && self@[j].id == id);
        if j < i {
            assert(self@[j].id < self@[i].id);
        } else if i < j {
            assert(self@[i].id < self@[j].id);
        }
    }

    /// The position of the post with the given id, if it is stored.
    fn find_index(&self, post_id: u64) -> (r: Option<usize>)
        requires
            self.wf(),
        ensures
            r is Some <==> contains_id(self@, post_id),
            r matches Some(i) ==> 0 <= i < self@.len() && self@[i as int].id == post_id
                && idx_of_id(self@, post_id) == i,
    {
        let mut i: usize = 0;
        while i < self.posts.len()
            invariant
                0 <= i <= self.posts@.len(),
                self@.len() == self.posts@.len(),
                forall|j: int| 0 <= j < i ==> self@[j].id != post_id,
                self.wf(),
            decreases self.posts@.len() - i,
        {
            if self.posts[i].id == post_id {
                proof {
                    self.lemma_idx_of_found(post_id, i as int);
                }
                return Some(i);
            }
            i = i + 1;
        }
        proof {
            assert(!contains_id(self@, post_id));
        }
        None
    }

    /// Creates a post: assigns the next id, stamps the supplied time,
    /// starts with an empty like set, stores the post and returns it.
    pub fn create_post(
        &mut self,
        author: UserId,
        content: String,
        visibility: Visibility,
        now: u64,
    ) -> (r: Post)
        requires
            old(self).wf(),
            old(self).next_id_spec() < u64::MAX,
        ensures
            final(self).wf(),
            final(self).next_id_spec() == old(self).next_id_spec() + 1,
            r@ == (PostView {
                id: old(self).next_id_spec(),
                content: content@,
                author,
                timestamp: now,
                likes: Seq::<UserId>::empty(),
                visibility,
            }),
            final(self)@ == old(self)@.push(r@),
    {
        let id = self.next_id;
        self.next_id = self.next_id + 1;
        let post = Post {
            id,
            content,
            author,
            timestamp: now,
            likes: Vec::new(),
            visibility,
        };
        let r = post.clone();
        let ghost prev = self.posts@;
        self.posts.push(post);
        proof {
            assert(self@ =~= post_views(prev).push(r@));
            assert(forall|i: int| 0 <= i < prev.len() ==> self@[i] == old(self)@[i]);
        }
        r
    }

    /// Flips `caller`'s membership of the like set of post `post_id` and
    /// returns the updated post; absent if no such post is stored.
    pub fn toggle_like_post(&mut self, post_id: u64, caller: UserId) -> (r: Option<Post>)
        requires
            old(self).wf(),
        ensures
            final(self).wf(),
            final(self).next_id_spec() == old(self).next_id_spec(),
            !contains_id(old(self)@, post_id) ==> r is None && final(self)@ == old(self)@,
            contains_id(old(self)@, post_id) ==> ({
                let i = idx_of_id(old(self)@, post_id);
                let pv = old(self)@[i];
                let npv = (PostView { likes: toggled(pv.likes, caller), ..pv });
                &&& final(self)@ == old(self)@.update(i, npv)
                &&& r matches Some(p) && p@ == npv
            }),
    {
        match self.find_index(post_id) {
            None => None,
            Some(i) => {
                let ghost prev = self.posts@;
                let mut post = self.posts.remove(i);
                let ghost pv = post@;
                if contains_user(&post.likes, caller) {
                    post.likes = remove_user(&post.likes, caller);
                } else {
                    post.likes.push(caller);
                }
                let r = post.clone();
                proof {
                    assert(r@ == (PostView { likes: toggled(pv.likes, caller), ..pv }));
                }
                self.posts.insert(i, post);
                proof {
                    lemma_remove_insert_update(prev, i as int, post);
                    assert(final(self)@ =~= old(self)@.update(i as int, r@));
                    lemma_filter_no_duplicates(pv.likes, not_user(caller));
                    assert(final(self).wf()) by {
                        assert(forall|k: int| 0 <= k < old(self)@.len() && k != i
                            ==> final(self)@[k] == old(self)@[k]);
                        assert(final(self)@[i as int].id == old(self)@[i as int].id);
                        assert(toggled(pv.likes, caller).no_duplicates()) by {
                            if !pv.likes.contains(caller) {
                                let t = pv.likes.push(caller);
                                assert(forall|k: int| 0 <= k < pv.likes.len()
                                    ==> t[k] == pv.likes[k]);
                                assert(t[t.len() - 1] == caller);
                            }
                        }
                    }
                }
                Some(r)
            }
        }
    }

    /// Replaces the content of post `post_id` and returns the updated
    /// post, only if it exists and `caller` is its author; otherwise the
    /// store is unchanged and the result is absent ("not found" and
    /// "unauthorized" are indistinguishable by design).
    pub fn edit_post(&mut self, post_id: u64, caller: UserId, new_content: String) -> (r: Option<
        Post,
    >)
        requires
            old(self).wf(),
        ensures
            final(self).wf(),
            final(self).next_id_spec() == old(self).next_id_spec(),
            (!contains_id(old(self)@, post_id) || post_of(old(self)@, post_id).author != caller)
                ==> r is None && final(self)@ == old(self)@,
            contains_id(old(self)@, post_id) && post_of(old(self)@, post_id).author == caller
                ==> ({
                let i = idx_of_id(old(self)@, post_id);
                let npv = (PostView { content: new_content@, ..old(self)@[i] });
                &&& final(self)@ == old(self)@.update(i, npv)
                &&& r matches Some(p) && p@ == npv
            }),
    {
        match self.find_index(post_id) {
            None => None,
            Some(i) => {
                if self.posts[i].author != caller {
                    return None;
                }
                let ghost prev = self.posts@;
                let mut post = self.posts.remove(i);
                let ghost pv = post@;
                post.content = new_content;
                let r = post.clone();
                self.posts.insert(i, post);
                proof {
                    lemma_remove_insert_update(prev, i as int, post);
                    assert(final(self)@ =~= old(self)@.update(i as int, r@));
                    assert(final(self).wf()) by {
                        assert(forall|k: int| 0 <= k < old(self)@.len() && k != i
                            ==> final(self)@[k] == old(self)@[k]);
                        assert(final(self)@[i as int].id == old(self)@[i as int].id);
                        assert(final(self)@[i as int].likes == old(self)@[i as int].likes);
                    }
                }
                Some(r)
            }
        }
    }

    /// Removes post `post_id` and reports success, only if it exists and
    /// `caller` is its author; otherwise the store is unchanged and the
    /// result is `false` ("not found" and "unauthorized" are
    /// indistinguishable by design). The id counter never goes back.
    pub fn delete_post(&mut self, post_id: u64, caller: UserId) -> (r: bool)
        requires
            old(self).wf(),
        ensures
            final(self).wf(),
            final(self).next_id_spec() == old(self).next_id_spec(),
            (!contains_id(old(self)@, post_id) || post_of(old(self)@, post_id).author != caller)
                ==> !r && final(self)@ == old(self)@,
            contains_id(old(self)@, post_id) && post_of(old(self)@, post_id).author == caller
                ==> r && final(self)@ == old(self)@.remove(idx_of_id(old(self)@, post_id)),
    {
        match self.find_index(post_id) {
            None => false,
            Some(i) => {
                if self.posts[i].author != caller {
                    return false;
                }
                let ghost prev = self.posts@;
                let _removed = self.posts.remove(i);
                proof {
                    assert(final(self)@ =~= old(self)@.remove(i as int));
                    assert(final(self).wf()) by {
                        assert(forall|k: int| 0 <= k < final(self)@.len()
                            ==> final(self)@[k] == if k < i {
                                old(self)@[k]
                            } else {
                                old(self)@[k + 1]
                            });
                    }
                }
                true
            }
        }
    }

    /// Point lookup by id; no authorization filtering.
    pub fn get_post(&self, post_id: u64) -> (r: Option<Post>)
        requires
            self.wf(),
        ensures
            r is Some <==> contains_id(self@, post_id),
            r matches Some(p) ==> p@ == post_of(self@, post_id),
    {
        match self.find_index(post_id) {
            None => None,
            Some(i) => Some(self.posts[i].clone()),
        }
    }

    /// Every post `caller` may see: the public ones and their own,
    /// in creation order.
    pub fn get_all_posts(&self, caller: UserId) -> (r: Vec<Post>)
        requires
            self.wf(),
        ensures
            post_views(r@) == self@.filter(visible_pred(caller)),
    {
        let mut r: Vec<Post> = Vec::new();
        let mut i: usize = 0;
        proof {
            assert(post_views(r@) =~= self@.take(0).filter(visible_pred(caller))) by {
                reveal(Seq::filter);
                assert(self@.take(0) =~= Seq::<PostView>::empty());
            }
        }
        while i < self.posts.len()
            invariant
                0 <= i <= self.posts@.len(),
                self@.len() == self.posts@.len(),
                post_views(r@) == self@.take(i as int).filter(visible_pred(caller)),
            decreases self.posts@.len() - i,
        {
            broadcast use Seq::lemma_filter_push;

            let p = &self.posts[i];
            let ghost prev = r@;
            if matches!(p.visibility, Visibility::Public) || p.author == caller {
                let c = p.clone();
                r.push(c);
                proof {
                    assert(post_views(r@) =~= post_views(prev).push(p@));
                }
            }
            proof {
                assert(self@.take(i + 1) =~= self@.take(i as int).push(self@[i as int]));
            }
            i = i + 1;
        }
        proof {
            assert(self@.take(self@.len() as int) =~= self@);
        }
        r
    }

    /// The posts a caller following exactly `fol` sees in their feed:
    /// public posts authored by the caller or by someone in `fol`, in
    /// creation order.
    pub fn feed_posts(&self, fol: &Vec<UserId>, caller: UserId) -> (r: Vec<Post>)
        requires
            self.wf(),
        ensures
            post_views(r@) == self@.filter(feed_pred(fol@, caller)),
    {
        let mut r: Vec<Post> = Vec::new();
        let mut i: usize = 0;
        proof {
            reveal(Seq::filter);
            assert(self@.take(0) =~= Seq::<PostView>::empty());
            assert(post_views(r@) =~= self@.take(0).filter(feed_pred(fol@, caller)));
        }
        while i < self.posts.len()
            invariant
                0 <= i <= self.posts@.len(),
                self@.len() == self.posts@.len(),
                post_views(r@) == self@.take(i as int).filter(feed_pred(fol@, caller)),
            decreases self.posts@.len() - i,
        {
            broadcast use Seq::lemma_filter_push;

            let p = &self.posts[i];
            let ghost prev = r@;
            if (p.author == caller || contains_user(fol, p.author)) && matches!(
                p.visibility,
                Visibility::Public,
            ) {
                let c = p.clone();
                r.push(c);
                proof {
                    assert(post_views(r@) =~= post_views(prev).push(p@));
                }
            }
            proof {
                assert(self@.take(i + 1) =~= self@.take(i as int).push(self@[i as int]));
            }
            i = i + 1;
        }
        proof {
            assert(self@.take(self@.len() as int) =~= self@);
        }
        r
    }
}

/// Monotonic ids: every stored id lies below the counter, so the id the
/// next creation returns — the counter's value — is fresh. Since no
/// operation decreases the counter and a creation increments it, ids of
/// successive creations strictly increase and an id is never reused,
/// deletion notwithstanding.
pub proof fn lemma_ids_below_counter(s: &PostStore)
    requires
        s.wf(),
    ensures
        forall|i: int| 0 <= i < s@.len() ==> (#[trigger] s@[i].id) < s.next_id_spec(),
        !contains_id(s@, s.next_id_spec()),
{
    if contains_id(s@, s.next_id_spec()) {
        let i = choose|i: int| 0 <= i < s@.len() && s@[i].id == s.next_id_spec();
        assert(s@[i].id < s.next_id_spec());
    }
}

/// Like-toggle involution: toggling the same identity twice returns the
/// like set to its original membership, and one toggle keeps it free of
/// duplicates.
pub proof fn lemma_toggle_involution(likes: Seq<UserId>, u: UserId)
    requires
        likes.no_duplicates(),
    ensures
        toggled(toggled(likes, u), u).to_set() == likes.to_set(),
        toggled(likes, u).no_duplicates(),
{
    if likes.contains(u) {
        let t1 = likes.filter(not_user(u));
        lemma_filter_no_duplicates(likes, not_user(u));
        assert(!t1.contains(u)) by {
            lemma_filter_contains_iff(likes, not_user(u), u);
        }
        let t2 = t1.push(u);
        assert(toggled(toggled(likes, u), u) == t2);
        assert forall|x: UserId| t2.contains(x) <==> likes.contains(x) by {
            lemma_filter_contains_iff(likes, not_user(u), x);
            if t2.contains(x) {
                let i = choose|i: int| 0 <= i < t2.len() && t2[i] == x;
                if i < t1.len() {
                    assert(t1[i] == x);
                    assert(t1.contains(x));
                } else {
                    assert(x == u);
                }
            }
            if likes.contains(x) {
                if x == u {
                    assert(t2[t1.len() as int] == u);
                    assert(t2.contains(x));
                } else {
                    assert(t1.contains(x));
                    let i = choose|i: int| 0 <= i < t1.len() && t1[i] == x;
                    assert(t2[i] == x);
                    assert(t2.contains(x));
                }
            }
        }
        assert(t2.to_set() =~= likes.to_set());
    } else {
        let t1 = likes.push(u);
        assert(t1[likes.len() as int] == u);
        assert(t1.contains(u));
        assert(forall|i: int| 0 <= i < likes.len() ==> likes[i] != u) by {
            if exists|i: int| 0 <= i < likes.len() && likes[i] == u {
                let i = choose|i: int| 0 <= i < likes.len() && likes[i] == u;
                assert(likes.contains(u));
            }
        }
        let t2 = t1.filter(not_user(u));
        assert(t2 == likes.filter(not_user(u))) by {
            broadcast use Seq::lemma_filter_push;

        }
        lemma_filter_all(likes, not_user(u));
        assert(toggled(toggled(likes, u), u) == likes);
        assert(t1.no_duplicates()) by {
            assert(forall|k: int| 0 <= k < likes.len() ==> t1[k] == likes[k]);
        }
    }
}

/// Visibility partition: what `get_all_posts` lists for `c` is exactly
/// the union of the public posts and `c`'s own posts — no others appear.
pub proof fn lemma_visibility_partition(s: Seq<PostView>, c: UserId)
    ensures
        s.filter(visible_pred(c)).to_set() == s.filter(public_pred()).to_set().union(
            s.filter(authored_pred(c)).to_set(),
        ),
{
    let lhs = s.filter(visible_pred(c)).to_set();
    let rhs = s.filter(public_pred()).to_set().union(s.filter(authored_pred(c)).to_set());
    assert forall|x: PostView| lhs.contains(x) <==> rhs.contains(x) by {
        lemma_filter_contains_iff(s, visible_pred(c), x);
        lemma_filter_contains_iff(s, public_pred(), x);
        lemma_filter_contains_iff(s, authored_pred(c), x);
    }
    assert(lhs =~= rhs);
}

} // verus!
