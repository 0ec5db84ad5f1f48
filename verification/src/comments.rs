//! The comment store: an append-only log, never checked against the
//! post store (a comment may name a post that never existed or was
//! deleted — deliberate behavior, not a bug).

use vstd::prelude::*;

use crate::types::Comment;
use crate::types::CommentView;
use crate::types::UserId;
use crate::types::comment_views;

verus! {

/// The comments on post `post_id`, as a predicate.
pub open spec fn by_post_pred(post_id: u64) -> spec_fn(CommentView) -> bool {
    |c: CommentView| c.post_id == post_id
}

/// Owns every comment, in append order.
pub struct CommentStore {
    comments: Vec<Comment>,
}

impl View for CommentStore {
    type V = Seq<CommentView>;

    /// The stored comments, in append order.
    closed spec fn view(&self) -> Seq<CommentView> {
        comment_views(self.comments@)
    }
}

impl CommentStore {
    /// An empty store.
    pub fn new() -> (s: CommentStore)
        ensures
            s@ == Seq::<CommentView>::empty(),
    {
        let s = CommentStore { comments: Vec::new() };
        proof {
            assert(s@ =~= Seq::<CommentView>::empty());
        }
        s
    }

    /// Appends a comment stamped with the supplied time; `post_id` is
    /// taken as given.
    pub fn add_comment(&mut self, post_id: u64, commenter: UserId, text: String, now: u64)
        ensures
            final(self)@ == old(self)@.push(
                (CommentView { post_id, commenter, text: text@, timestamp: now }),
            ),
    {
        let comment = Comment { post_id, commenter, text, timestamp: now };
        let ghost cv = comment@;
        self.comments.push(comment);
        proof {
            assert(final(self)@ =~= old(self)@.push(cv));
        }
    }

    /// Every comment on post `post_id`, in append order.
    pub fn get_comments(&self, post_id: u64) -> (r: Vec<Comment>)
        ensures
            comment_views(r@) == self@.filter(by_post_pred(post_id)),
    {
        let mut r: Vec<Comment> = Vec::new();
        let mut i: usize = 0;
        proof {
            reveal(Seq::filter);
            assert(self@.take(0) =~= Seq::<CommentView>::empty());
            assert(comment_views(r@) =~= self@.take(0).filter(by_post_pred(post_id)));
        }
        while i < self.comments.len()
            invariant
                0 <= i <= self.comments@.len(),
                self@.len() == self.comments@.len(),
                comment_views(r@) == self@.take(i as int).filter(by_post_pred(post_id)),
            decreases self.comments@.len() - i,
        {
            broadcast use Seq::lemma_filter_push;

            let ghost prev = r@;
            if self.comments[i].post_id == post_id {
                let c = self.comments[i].clone();
                r.push(c);
                proof {
                    assert(comment_views(r@) =~= comment_views(prev).push(self@[i as int]));
                }
            }
            proof {
                assert(self@.take(i + 1) =~= self@.take(i as int).push(self@[i as int]));
            }
            i = i + 1;
        }
        proof {
            assert(self@.take(self@.len() as int) =~= self@);
        }
        r
    }
}

} // verus!
