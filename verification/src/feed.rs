//! The feed service: a pure query composed from the post store and the
//! follow graph at call time; it owns no state.

use vstd::prelude::*;

use crate::graph::SocialGraph;
use crate::posts::PostStore;
use crate::posts::feed_pred;
use crate::posts::visible_pred;
use crate::seqs::lemma_filter_contains_iff;
use crate::types::Post;
use crate::types::PostView;
use crate::types::UserId;
use crate::types::Visibility;
use crate::types::post_views;

verus! {

/// The caller's feed: every public post authored by the caller or by a
/// user the caller follows, in creation order. The caller's own
/// non-public posts are deliberately excluded, although `get_all_posts`
/// shows them.
pub fn get_feed(posts: &PostStore, graph: &SocialGraph, caller: UserId) -> (r: Vec<Post>)
    requires
        posts.wf(),
    ensures
        post_views(r@) == posts@.filter(feed_pred(graph.following_of(caller), caller)),
{
    let fol = graph.get_following(caller);
    posts.feed_posts(&fol, caller)
}

/// Feed exclusion: a non-public post authored by the caller never
/// appears in the caller's feed, whoever the caller follows, even
/// though `get_all_posts` lists it for them.
pub proof fn lemma_feed_excludes_own_nonpublic(
    s: Seq<PostView>,
    fol: Seq<UserId>,
    c: UserId,
    pv: PostView,
)
    requires
        pv.author == c,
        pv.visibility == Visibility::NonPublic,
    ensures
        !s.filter(feed_pred(fol, c)).contains(pv),
        s.contains(pv) ==> s.filter(visible_pred(c)).contains(pv),
{
    lemma_filter_contains_iff(s, feed_pred(fol, c), pv);
    lemma_filter_contains_iff(s, visible_pred(c), pv);
}

} // verus!
