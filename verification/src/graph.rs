//! The follow graph: a set of directed edges, answered through the two
//! adjacency views `following` and `followers`.
//!
//! Both views are derived from one edge list, so a follow or unfollow
//! updates them together by construction, and the views can never
//! disagree.

use vstd::prelude::*;

use crate::seqs::lemma_filter_no_duplicates;
use crate::types::FollowResult;
use crate::types::UserId;

verus! {

/// A directed follow edge: `follower` sees `followee`'s public posts.
#[derive(Clone, Copy, PartialEq, Eq, Structural, Debug)]
pub struct Edge {
    pub follower: UserId,
    pub followee: UserId,
}

/// Edges leaving `u`, as a predicate.
pub open spec fn follows_pred(u: UserId) -> spec_fn(Edge) -> bool {
    |e: Edge| e.follower == u
}

/// Edges arriving at `u`, as a predicate.
pub open spec fn followed_by_pred(u: UserId) -> spec_fn(Edge) -> bool {
    |e: Edge| e.followee == u
}

/// Everything except `e`, as a predicate on edges.
pub open spec fn not_edge(e: Edge) -> spec_fn(Edge) -> bool {
    |x: Edge| x != e
}

/// Projects an edge to the user it points at.
pub open spec fn to_followee() -> spec_fn(Edge) -> UserId {
    |e: Edge| e.followee
}

/// Projects an edge to the user it leaves.
pub open spec fn to_follower() -> spec_fn(Edge) -> UserId {
    |e: Edge| e.follower
}

/// The edge list and result after `caller` asks to follow `target`:
/// a self-follow and an existing edge change nothing; otherwise the new
/// edge is appended.
pub open spec fn follow_model(edges: Seq<Edge>, caller: UserId, target: UserId) -> (
    Seq<Edge>,
    FollowResult,
) {
    let e = Edge { follower: caller, followee: target };
    if caller == target {
        (edges, FollowResult::CannotFollowSelf)
    } else if edges.contains(e) {
        (edges, FollowResult::AlreadyFollowing)
    } else {
        (edges.push(e), FollowResult::Success)
    }
}

/// The edge list and result after `caller` asks to unfollow `target`:
/// a missing edge changes nothing; otherwise the edge is removed.
pub open spec fn unfollow_model(edges: Seq<Edge>, caller: UserId, target: UserId) -> (
    Seq<Edge>,
    FollowResult,
) {
    let e = Edge { follower: caller, followee: target };
    if !edges.contains(e) {
        (edges, FollowResult::NotFollowing)
    } else {
        (edges.filter(not_edge(e)), FollowResult::Success)
    }
}

/// Whether `e` occurs in `v`.
fn contains_edge(v: &Vec<Edge>, e: Edge) -> (r: bool)
    ensures
        r == v@.contains(e),
{
    let mut i: usize = 0;
    while i < v.len()
        invariant
            0 <= i <= v@.len(),
            forall|j: int| 0 <= j < i ==> v@[j] != e,
        decreases v@.len() - i,
    {
        if v[i].follower == e.follower && v[i].followee == e.followee {
            proof {
                assert(v@[i as int] == e);
            }
            return true;
        }
        i = i + 1;
    }
    proof {
        if v@.contains(e) {
            let j = choose|j: int| 0 <= j < v@.len() && v@[j] == e;
            assert(false);
        }
    }
    false
}

/// The edges of `v` with every occurrence of `e` removed, in order.
fn remove_edge(v: &Vec<Edge>, e: Edge) -> (r: Vec<Edge>)
    ensures
        r@ == v@.filter(not_edge(e)),
{
    let mut r: Vec<Edge> = Vec::new();
    let mut i: usize = 0;
    proof {
        reveal(Seq::filter);
        assert(v@.take(0) =~= Seq::<Edge>::empty());
        assert(r@ =~= v@.take(0).filter(not_edge(e)));
    }
    while i < v.len()
        invariant
            0 <= i <= v@.len(),
            r@ == v@.take(i as int).filter(not_edge(e)),
        decreases v@.len() - i,
    {
        broadcast use Seq::lemma_filter_push;

        if !(v[i].follower == e.follower && v[i].followee == e.followee) {
            r.push(v[i]);
            proof {
                assert(v@[i as int] != e);
            }
        } else {
            proof {
                assert(v@[i as int] == e);
            }
        }
        proof {
            assert(v@.take(i + 1) =~= v@.take(i as int).push(v@[i as int]));
        }
        i = i + 1;
    }
    proof {
        assert(v@.take(v@.len() as int) =~= v@);
    }
    r
}

/// Owns the follow relation of the whole service.
pub struct SocialGraph {
    edges: Vec<Edge>,
}

impl View for SocialGraph {
    type V = Seq<Edge>;

    /// The follow edges, in the order the follows happened.
    closed spec fn view(&self) -> Seq<Edge> {
        self.edges@
    }
}

impl SocialGraph {
    /// Graph invariant: an ordered pair is followed at most once.
    pub open spec fn wf(&self) -> bool {
        self@.no_duplicates()
    }

    /// Who `u` follows, in follow order.
    pub open spec fn following_of(&self, u: UserId) -> Seq<UserId> {
        self@.filter(follows_pred(u)).map_values(to_followee())
    }

    /// Who follows `u`, in follow order.
    pub open spec fn followers_of(&self, u: UserId) -> Seq<UserId> {
        self@.filter(followed_by_pred(u)).map_values(to_follower())
    }

    /// A graph with no edges.
    pub fn new() -> (g: SocialGraph)
        ensures
            g@ == Seq::<Edge>::empty(),
            g.wf(),
    {
        let g = SocialGraph { edges: Vec::new() };
        proof {
            assert(g@ =~= Seq::<Edge>::empty());
        }
        g
    }

    /// `caller` starts following `target`, unless the request is a
    /// self-follow or the edge already exists; both adjacency views
    /// change together, exactly as `follow_model` says.
    pub fn follow_user(&mut self, caller: UserId, target: UserId) -> (r: FollowResult)
        requires
            old(self).wf(),
        ensures
            final(self).wf(),
            (final(self)@, r) == follow_model(old(self)@, caller, target),
    {
        let e = Edge { follower: caller, followee: target };
        if caller == target {
            return FollowResult::CannotFollowSelf;
        }
        if contains_edge(&self.edges, e) {
            return FollowResult::AlreadyFollowing;
        }
        self.edges.push(e);
        proof {
            let s = old(self)@;
            let t = s.push(e);
            assert(final(self)@ == t);
            assert(t.no_duplicates()) by {
                assert(forall|k: int| 0 <= k < s.len() ==> t[k] == s[k]);
                assert(t[s.len() as int] == e);
                assert(forall|k: int| 0 <= k < s.len() ==> s[k] != e) by {
                    if exists|k: int| 0 <= k < s.len() && s[k] == e {
                        let k = choose|k: int| 0 <= k < s.len() && s[k] == e;
                        assert(s.contains(e));
                    }
                }
            }
        }
        FollowResult::Success
    }

    /// `caller` stops following `target`, if the edge exists; both
    /// adjacency views change together, exactly as `unfollow_model` says.
    pub fn unfollow_user(&mut self, caller: UserId, target: UserId) -> (r: FollowResult)
        requires
            old(self).wf(),
        ensures
            final(self).wf(),
            (final(self)@, r) == unfollow_model(old(self)@, caller, target),
    {
        let e = Edge { follower: caller, followee: target };
        if !contains_edge(&self.edges, e) {
            return FollowResult::NotFollowing;
        }
        let remaining = remove_edge(&self.edges, e);
        self.edges = remaining;
        proof {
            lemma_filter_no_duplicates(old(self)@, not_edge(e));
        }
        FollowResult::Success
    }

    /// The users `user` follows; an empty list when there are none.
    pub fn get_following(&self, user: UserId) -> (r: Vec<UserId>)
        ensures
            r@ == self.following_of(user),
    {
        let mut r: Vec<UserId> = Vec::new();
        let mut i: usize = 0;
        proof {
            reveal(Seq::filter);
            assert(self@.take(0) =~= Seq::<Edge>::empty());
            assert(r@ =~= self@.take(0).filter(follows_pred(user)).map_values(to_followee()));
        }
        while i < self.edges.len()
            invariant
                0 <= i <= self.edges@.len(),
                self@.len() == self.edges@.len(),
                r@ == self@.take(i as int).filter(follows_pred(user)).map_values(to_followee()),
            decreases self.edges@.len() - i,
        {
            broadcast use Seq::lemma_filter_push;

            let e = self.edges[i];
            let ghost taken = self@.take(i as int).filter(follows_pred(user));
            if e.follower == user {
                r.push(e.followee);
                proof {
                    assert(taken.push(e).map_values(to_followee()) =~= taken.map_values(
                        to_followee(),
                    ).push(e.followee));
                }
            }
            proof {
                assert(self@.take(i + 1) =~= self@.take(i as int).push(self@[i as int]));
            }
            i = i + 1;
        }
        proof {
            assert(self@.take(self@.len() as int) =~= self@);
        }
        r
    }

    /// The users following `user`; an empty list when there are none.
    pub fn get_followers(&self, user: UserId) -> (r: Vec<UserId>)
        ensures
            r@ == self.followers_of(user),
    {
        let mut r: Vec<UserId> = Vec::new();
        let mut i: usize = 0;
        proof {
            reveal(Seq::filter);
            assert(self@.take(0) =~= Seq::<Edge>::empty());
            assert(r@ =~= self@.take(0).filter(followed_by_pred(user)).map_values(to_follower()));
        }
        while i < self.edges.len()
            invariant
                0 <= i <= self.edges@.len(),
                self@.len() == self.edges@.len(),
                r@ == self@.take(i as int).filter(followed_by_pred(user)).map_values(to_follower()),
            decreases self.edges@.len() - i,
        {
            broadcast use Seq::lemma_filter_push;

            let e = self.edges[i];
            let ghost taken = self@.take(i as int).filter(followed_by_pred(user));
            if e.followee == user {
                r.push(e.follower);
                proof {
                    assert(taken.push(e).map_values(to_follower()) =~= taken.map_values(
                        to_follower(),
                    ).push(e.follower));
                }
            }
            proof {
                assert(self@.take(i + 1) =~= self@.take(i as int).push(self@[i as int]));
            }
            i = i + 1;
        }
        proof {
            assert(self@.take(self@.len() as int) =~= self@);
        }
        r
    }
}

/// `b` stands in `a`'s following view exactly when the edge `a -> b` is
/// in the graph.
pub proof fn lemma_following_iff_edge(g: &SocialGraph, a: UserId, b: UserId)
    ensures
        g.following_of(a).contains(b) <==> g@.contains((Edge { follower: a, followee: b })),
{
    broadcast use Seq::lemma_filter_contains;
    broadcast use Seq::lemma_filter_contains_rev;
    broadcast use Seq::lemma_filter_pred;

    let e = Edge { follower: a, followee: b };
    let filtered = g@.filter(follows_pred(a));
    let mapped = filtered.map_values(to_followee());
    if mapped.contains(b) {
        let i = choose|i: int| 0 <= i < mapped.len() && mapped[i] == b;
        assert(filtered[i].followee == b);
        assert(follows_pred(a)(filtered[i]));
        assert(filtered[i] == e);
        assert(filtered.contains(e));
    }
    if g@.contains(e) {
        let k = choose|k: int| 0 <= k < g@.len() && g@[k] == e;
        assert(follows_pred(a)(g@[k]));
        assert(filtered.contains(e));
        let j = choose|j: int| 0 <= j < filtered.len() && filtered[j] == e;
        assert(mapped[j] == b);
        assert(mapped.contains(b));
    }
}

/// `a` stands in `b`'s followers view exactly when the edge `a -> b` is
/// in the graph.
pub proof fn lemma_followers_iff_edge(g: &SocialGraph, b: UserId, a: UserId)
    ensures
        g.followers_of(b).contains(a) <==> g@.contains((Edge { follower: a, followee: b })),
{
    broadcast use Seq::lemma_filter_contains;
    broadcast use Seq::lemma_filter_contains_rev;
    broadcast use Seq::lemma_filter_pred;

    let e = Edge { follower: a, followee: b };
    let filtered = g@.filter(followed_by_pred(b));
    let mapped = filtered.map_values(to_follower());
    if mapped.contains(a) {
        let i = choose|i: int| 0 <= i < mapped.len() && mapped[i] == a;
        assert(filtered[i].follower == a);
        assert(followed_by_pred(b)(filtered[i]));
        assert(filtered[i] == e);
        assert(filtered.contains(e));
    }
    if g@.contains(e) {
        let k = choose|k: int| 0 <= k < g@.len() && g@[k] == e;
        assert(followed_by_pred(b)(g@[k]));
        assert(filtered.contains(e));
        let j = choose|j: int| 0 <= j < filtered.len() && filtered[j] == e;
        assert(mapped[j] == a);
        assert(mapped.contains(a));
    }
}

/// Follow graph symmetry: at any time, `b` is in `a`'s following view
/// exactly when `a` is in `b`'s followers view.
pub proof fn lemma_follow_symmetry(g: &SocialGraph, a: UserId, b: UserId)
    ensures
        g.following_of(a).contains(b) <==> g.followers_of(b).contains(a),
{
    lemma_following_iff_edge(g, a, b);
    lemma_followers_iff_edge(g, b, a);
}

/// A self-follow is always rejected and never mutates the graph.
pub proof fn lemma_self_follow_rejected(edges: Seq<Edge>, a: UserId)
    ensures
        follow_model(edges, a, a) == (edges, FollowResult::CannotFollowSelf),
{
}

/// Following the same user twice in a row: the first call succeeds, the
/// second reports `AlreadyFollowing` and creates no duplicate edge.
pub proof fn lemma_follow_twice(edges: Seq<Edge>, a: UserId, b: UserId)
    requires
        a != b,
        !edges.contains((Edge { follower: a, followee: b })),
    ensures
        ({
            let first = follow_model(edges, a, b);
            let second = follow_model(first.0, a, b);
            &&& first.1 == FollowResult::Success
            &&& second.1 == FollowResult::AlreadyFollowing
            &&& second.0 == first.0
        }),
{
    let e = Edge { follower: a, followee: b };
    let first = follow_model(edges, a, b);
    assert(first.0 == edges.push(e));
    assert(first.0[edges.len() as int] == e);
    assert(first.0.contains(e));
}

} // verus!
