//! Core state and query layer of a small social-networking service.
//!
//! The library owns five stores — posts, profiles, comments, and the two
//! adjacency views of the follow graph — and answers identity-scoped
//! queries (feeds, searches, visibility-filtered listings) against them.
//! The caller identity and the current time are supplied by the transport
//! layer as plain values, so every operation here is a pure function of
//! its arguments and the store state.

mod comments;
mod feed;
mod graph;
mod posts;
mod profiles;
mod seqs;
mod social;
mod text;
mod types;

pub use social::Social;

pub use types::Comment;
pub use types::CommentView;
pub use types::FollowResult;
pub use types::Post;
pub use types::PostView;
pub use types::ProfileView;
pub use types::UserId;
pub use types::UserProfile;
pub use types::Visibility;
pub use types::comment_views;
pub use types::not_user;
pub use types::post_views;
pub use types::profile_views;

pub use posts::PostStore;
pub use posts::authored_pred;
pub use posts::contains_id;
pub use posts::feed_pred;
pub use posts::idx_of_id;
pub use posts::lemma_ids_below_counter;
pub use posts::lemma_toggle_involution;
pub use posts::lemma_visibility_partition;
pub use posts::post_of;
pub use posts::public_pred;
pub use posts::toggled;
pub use posts::visible_pred;
pub use posts::visible_to;

pub use profiles::ProfileRegistry;
pub use profiles::chosen_avatar;
pub use profiles::contains_principal;
pub use profiles::default_avatar_spec;
pub use profiles::default_avatar_url;
pub use profiles::idx_of_principal;
pub use profiles::matches_pred;
pub use profiles::profile_of;
pub use profiles::stored_profile;

pub use comments::CommentStore;
pub use comments::by_post_pred;

pub use graph::Edge;
pub use graph::SocialGraph;
pub use graph::follow_model;
pub use graph::followed_by_pred;
pub use graph::follows_pred;
pub use graph::lemma_follow_symmetry;
pub use graph::lemma_follow_twice;
pub use graph::lemma_followers_iff_edge;
pub use graph::lemma_following_iff_edge;
pub use graph::lemma_self_follow_rejected;
pub use graph::not_edge;
pub use graph::to_followee;
pub use graph::to_follower;
pub use graph::unfollow_model;

pub use feed::get_feed;
pub use feed::lemma_feed_excludes_own_nonpublic;

pub use text::blank_spec;
pub use text::contains_seq;
pub use text::is_blank;
pub use text::is_space_char;
pub use text::is_space_code;
pub use text::lower_of;

pub use seqs::lemma_filter_all;
pub use seqs::lemma_filter_contains_iff;
pub use seqs::lemma_filter_no_duplicates;
pub use seqs::lemma_remove_insert_update;
