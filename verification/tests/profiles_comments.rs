use social_core::Social;
use social_core::UserId;
use social_core::Visibility;

const DEFAULT_AVATAR: &str = "https://i.ibb.co/Pr3bY4X/default-avatar.png";

fn uid(n: u64) -> UserId {
    UserId { id: n }
}

#[test]
fn register_stores_profile() {
    let mut s = Social::new();
    s.register_user(uid(1), "alice".to_string(), "http://a".to_string(), "hi".to_string());
    let p = s.get_my_profile(uid(1)).unwrap();
    assert_eq!(p.principal, uid(1));
    assert_eq!(p.username, "alice");
    assert_eq!(p.avatar_url, "http://a");
    assert_eq!(p.bio, "hi");
}

#[test]
fn register_blank_avatar_falls_back() {
    let mut s = Social::new();
    s.register_user(uid(1), "alice".to_string(), "".to_string(), "b".to_string());
    assert_eq!(s.get_my_profile(uid(1)).unwrap().avatar_url, DEFAULT_AVATAR);
    s.register_user(uid(2), "bob".to_string(), " \t\n ".to_string(), "b".to_string());
    assert_eq!(s.get_my_profile(uid(2)).unwrap().avatar_url, DEFAULT_AVATAR);
    s.register_user(uid(3), "carol".to_string(), " x ".to_string(), "b".to_string());
    assert_eq!(s.get_my_profile(uid(3)).unwrap().avatar_url, " x ");
}

#[test]
fn register_overwrites_existing_profile() {
    let mut s = Social::new();
    s.register_user(uid(1), "old".to_string(), "http://a".to_string(), "old bio".to_string());
    s.register_user(uid(1), "new".to_string(), "http://b".to_string(), "new bio".to_string());
    let p = s.get_my_profile(uid(1)).unwrap();
    assert_eq!(p.username, "new");
    assert_eq!(p.avatar_url, "http://b");
    assert_eq!(p.bio, "new bio");
    assert_eq!(s.search_users("".to_string()).len(), 1);
}

#[test]
fn get_my_profile_absent_when_unregistered() {
    let s = Social::new();
    assert!(s.get_my_profile(uid(7)).is_none());
}

#[test]
fn update_profile_missing_is_noop() {
    let mut s = Social::new();
    s.update_profile(uid(1), "ghost".to_string(), "a".to_string(), "b".to_string());
    assert!(s.get_my_profile(uid(1)).is_none());
}

#[test]
fn update_profile_replaces_fields() {
    let mut s = Social::new();
    s.register_user(uid(1), "alice".to_string(), "http://a".to_string(), "old".to_string());
    s.update_profile(uid(1), "alicia".to_string(), "  ".to_string(), "new".to_string());
    let p = s.get_my_profile(uid(1)).unwrap();
    assert_eq!(p.principal, uid(1));
    assert_eq!(p.username, "alicia");
    assert_eq!(p.avatar_url, DEFAULT_AVATAR);
    assert_eq!(p.bio, "new");
}

#[test]
fn search_users_is_case_insensitive_substring() {
    let mut s = Social::new();
    s.register_user(uid(1), "Alice".to_string(), "a".to_string(), "".to_string());
    s.register_user(uid(2), "bob".to_string(), "a".to_string(), "".to_string());
    s.register_user(uid(3), "MALICE".to_string(), "a".to_string(), "".to_string());
    let hit: Vec<u64> = s.search_users("aLiCe".to_string()).iter().map(|p| p.principal.id).collect();
    assert_eq!(hit, vec![1, 3]);
    let sub: Vec<u64> = s.search_users("lic".to_string()).iter().map(|p| p.principal.id).collect();
    assert_eq!(sub, vec![1, 3]);
    let none: Vec<u64> = s.search_users("zz".to_string()).iter().map(|p| p.principal.id).collect();
    assert_eq!(none, vec![]);
    let all: Vec<u64> = s.search_users("".to_string()).iter().map(|p| p.principal.id).collect();
    assert_eq!(all, vec![1, 2, 3]);
}

#[test]
fn search_users_folds_non_ascii_case() {
    let mut s = Social::new();
    s.register_user(uid(1), "Ångström".to_string(), "a".to_string(), "".to_string());
    let hit: Vec<u64> = s.search_users("NGSTRÖM".to_string()).iter().map(|p| p.principal.id).collect();
    assert_eq!(hit, vec![1]);
}

#[test]
fn unicode_whitespace_avatar_falls_back() {
    let mut s = Social::new();
    s.register_user(uid(1), "nbsp".to_string(), "\u{00A0}\u{2003}".to_string(), "".to_string());
    assert_eq!(s.get_my_profile(uid(1)).unwrap().avatar_url, DEFAULT_AVATAR);
}

#[test]
fn comments_append_in_order_without_existence_check() {
    let mut s = Social::new();
    s.add_comment(uid(1), 7, "first".to_string(), 10);
    s.add_comment(uid(2), 7, "second".to_string(), 11);
    s.add_comment(uid(1), 8, "other post".to_string(), 12);
    let on7 = s.get_comments(7);
    assert_eq!(on7.len(), 2);
    assert_eq!(on7[0].text, "first");
    assert_eq!(on7[0].commenter, uid(1));
    assert_eq!(on7[0].timestamp, 10);
    assert_eq!(on7[1].text, "second");
    assert_eq!(s.get_comments(8).len(), 1);
    assert_eq!(s.get_comments(9).len(), 0);
}

#[test]
fn comments_survive_post_deletion() {
    let mut s = Social::new();
    s.create_post(uid(1), "post".to_string(), Visibility::Public, 1);
    s.add_comment(uid(2), 0, "nice".to_string(), 2);
    assert!(s.delete_post(uid(1), 0));
    let remaining = s.get_comments(0);
    assert_eq!(remaining.len(), 1);
    assert_eq!(remaining[0].text, "nice");
}
