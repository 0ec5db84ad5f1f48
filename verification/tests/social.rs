use social_core::FollowResult;
use social_core::Social;
use social_core::UserId;
use social_core::Visibility;

fn uid(n: u64) -> UserId {
    UserId { id: n }
}

#[test]
fn create_post_fields() {
    let mut s = Social::new();
    let p = s.create_post(uid(1), "hello".to_string(), Visibility::Public, 42);
    assert_eq!(p.id, 0);
    assert_eq!(p.content, "hello");
    assert_eq!(p.author, uid(1));
    assert_eq!(p.timestamp, 42);
    assert_eq!(p.likes, vec![]);
    assert_eq!(p.visibility, Visibility::Public);
}

#[test]
fn monotonic_ids_never_reused_after_delete() {
    let mut s = Social::new();
    let a = s.create_post(uid(1), "a".to_string(), Visibility::Public, 1);
    let b = s.create_post(uid(1), "b".to_string(), Visibility::Public, 2);
    assert_eq!(a.id, 0);
    assert_eq!(b.id, 1);
    assert!(s.delete_post(uid(1), 0));
    let c = s.create_post(uid(1), "c".to_string(), Visibility::Public, 3);
    assert_eq!(c.id, 2);
    assert!(b.id > a.id && c.id > b.id);
}

#[test]
fn toggle_like_adds_then_removes() {
    let mut s = Social::new();
    s.create_post(uid(1), "post".to_string(), Visibility::Public, 1);
    let once = s.toggle_like_post(uid(2), 0).unwrap();
    assert_eq!(once.likes, vec![uid(2)]);
    let twice = s.toggle_like_post(uid(2), 0).unwrap();
    assert_eq!(twice.likes, vec![]);
}

#[test]
fn toggle_like_keeps_other_likers() {
    let mut s = Social::new();
    s.create_post(uid(1), "post".to_string(), Visibility::Public, 1);
    s.toggle_like_post(uid(2), 0);
    s.toggle_like_post(uid(3), 0);
    let after = s.toggle_like_post(uid(2), 0).unwrap();
    assert_eq!(after.likes, vec![uid(3)]);
}

#[test]
fn toggle_like_missing_post_is_absent() {
    let mut s = Social::new();
    assert!(s.toggle_like_post(uid(2), 9).is_none());
}

#[test]
fn visibility_partition() {
    let mut s = Social::new();
    s.create_post(uid(1), "u1 public".to_string(), Visibility::Public, 1);
    s.create_post(uid(1), "u1 private".to_string(), Visibility::NonPublic, 2);
    s.create_post(uid(2), "u2 public".to_string(), Visibility::Public, 3);
    s.create_post(uid(2), "u2 private".to_string(), Visibility::NonPublic, 4);
    let seen: Vec<u64> = s.get_all_posts(uid(1)).iter().map(|p| p.id).collect();
    assert_eq!(seen, vec![0, 1, 2]);
    let seen2: Vec<u64> = s.get_all_posts(uid(2)).iter().map(|p| p.id).collect();
    assert_eq!(seen2, vec![0, 2, 3]);
    let stranger: Vec<u64> = s.get_all_posts(uid(9)).iter().map(|p| p.id).collect();
    assert_eq!(stranger, vec![0, 2]);
}

#[test]
fn feed_excludes_own_nonpublic() {
    let mut s = Social::new();
    s.create_post(uid(1), "open".to_string(), Visibility::Public, 1);
    s.create_post(uid(1), "hidden".to_string(), Visibility::NonPublic, 2);
    let feed: Vec<u64> = s.get_feed(uid(1)).iter().map(|p| p.id).collect();
    assert_eq!(feed, vec![0]);
    let listed: Vec<u64> = s.get_all_posts(uid(1)).iter().map(|p| p.id).collect();
    assert_eq!(listed, vec![0, 1]);
}

#[test]
fn feed_shows_followed_public_only() {
    let mut s = Social::new();
    s.create_post(uid(1), "public".to_string(), Visibility::Public, 1);
    s.create_post(uid(1), "private".to_string(), Visibility::NonPublic, 2);
    s.create_post(uid(3), "unrelated".to_string(), Visibility::Public, 3);
    assert_eq!(s.follow_user(uid(2), uid(1)), FollowResult::Success);
    let feed: Vec<u64> = s.get_feed(uid(2)).iter().map(|p| p.id).collect();
    assert_eq!(feed, vec![0]);
}

#[test]
fn follow_graph_symmetry() {
    let mut s = Social::new();
    assert_eq!(s.follow_user(uid(1), uid(2)), FollowResult::Success);
    assert_eq!(s.get_following(uid(1)), vec![uid(2)]);
    assert_eq!(s.get_followers(uid(2)), vec![uid(1)]);
    assert_eq!(s.get_following(uid(2)), vec![]);
    assert_eq!(s.get_followers(uid(1)), vec![]);
    assert_eq!(s.unfollow_user(uid(1), uid(2)), FollowResult::Success);
    assert_eq!(s.get_following(uid(1)), vec![]);
    assert_eq!(s.get_followers(uid(2)), vec![]);
}

#[test]
fn self_follow_rejected() {
    let mut s = Social::new();
    assert_eq!(s.follow_user(uid(1), uid(1)), FollowResult::CannotFollowSelf);
    assert_eq!(s.get_following(uid(1)), vec![]);
    assert_eq!(s.get_followers(uid(1)), vec![]);
}

#[test]
fn follow_twice_signals_already_following() {
    let mut s = Social::new();
    assert_eq!(s.follow_user(uid(1), uid(2)), FollowResult::Success);
    assert_eq!(s.follow_user(uid(1), uid(2)), FollowResult::AlreadyFollowing);
    assert_eq!(s.get_following(uid(1)), vec![uid(2)]);
    assert_eq!(s.get_followers(uid(2)), vec![uid(1)]);
}

#[test]
fn unfollow_without_edge_signals_not_following() {
    let mut s = Social::new();
    assert_eq!(s.unfollow_user(uid(1), uid(2)), FollowResult::NotFollowing);
}

#[test]
fn refollow_after_unfollow_succeeds() {
    let mut s = Social::new();
    assert_eq!(s.follow_user(uid(1), uid(2)), FollowResult::Success);
    assert_eq!(s.unfollow_user(uid(1), uid(2)), FollowResult::Success);
    assert_eq!(s.follow_user(uid(1), uid(2)), FollowResult::Success);
    assert_eq!(s.get_following(uid(1)), vec![uid(2)]);
}

#[test]
fn get_post_point_lookup() {
    let mut s = Social::new();
    s.create_post(uid(1), "findable".to_string(), Visibility::NonPublic, 5);
    let p = s.posts.get_post(0).unwrap();
    assert_eq!(p.content, "findable");
    assert_eq!(p.visibility, Visibility::NonPublic);
    assert!(s.posts.get_post(1).is_none());
}

#[test]
fn edit_post_author_only() {
    let mut s = Social::new();
    s.create_post(uid(1), "original".to_string(), Visibility::Public, 1);
    assert!(s.edit_post(uid(2), 0, "hacked".to_string()).is_none());
    let unchanged = s.get_all_posts(uid(1));
    assert_eq!(unchanged[0].content, "original");
    let edited = s.edit_post(uid(1), 0, "fixed".to_string()).unwrap();
    assert_eq!(edited.content, "fixed");
    assert_eq!(edited.id, 0);
    let listed = s.get_all_posts(uid(1));
    assert_eq!(listed[0].content, "fixed");
    assert!(s.edit_post(uid(1), 9, "nowhere".to_string()).is_none());
}

#[test]
fn delete_post_author_only() {
    let mut s = Social::new();
    s.create_post(uid(1), "keep me".to_string(), Visibility::Public, 1);
    assert!(!s.delete_post(uid(2), 0));
    assert_eq!(s.get_all_posts(uid(1)).len(), 1);
    assert!(!s.delete_post(uid(1), 9));
    assert!(s.delete_post(uid(1), 0));
    assert_eq!(s.get_all_posts(uid(1)).len(), 0);
    assert!(!s.delete_post(uid(1), 0));
}

#[test]
fn scenario_feed_and_listings() {
    let mut s = Social::new();
    let first = s.create_post(uid(1), "hi".to_string(), Visibility::Public, 1);
    assert_eq!(first.id, 0);
    assert_eq!(s.follow_user(uid(2), uid(1)), FollowResult::Success);
    let second = s.create_post(uid(1), "secret".to_string(), Visibility::NonPublic, 2);
    assert_eq!(second.id, 1);
    let feed: Vec<u64> = s.get_feed(uid(2)).iter().map(|p| p.id).collect();
    assert_eq!(feed, vec![0]);
    let as_u1: Vec<u64> = s.get_all_posts(uid(1)).iter().map(|p| p.id).collect();
    assert_eq!(as_u1, vec![0, 1]);
    let as_u2: Vec<u64> = s.get_all_posts(uid(2)).iter().map(|p| p.id).collect();
    assert_eq!(as_u2, vec![0]);
}

#[test]
fn scenario_double_toggle_leaves_no_likes() {
    let mut s = Social::new();
    s.create_post(uid(1), "hi".to_string(), Visibility::Public, 1);
    assert_eq!(s.follow_user(uid(2), uid(1)), FollowResult::Success);
    s.toggle_like_post(uid(2), 0);
    let after = s.toggle_like_post(uid(2), 0).unwrap();
    assert_eq!(after.likes, vec![]);
}
