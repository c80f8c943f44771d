use myfans::content_likes::ContentLikes;
use myfans::errors::Error;

#[test]
fn test_like_and_unlike() {
    let mut contract = ContentLikes::new();
    let user = 1;
    let content_id = 1u32;

    assert_eq!(contract.like_count(content_id), 0);
    assert!(!contract.has_liked(user, content_id));

    contract.like(user, user, content_id).unwrap();
    assert_eq!(contract.like_count(content_id), 1);
    assert!(contract.has_liked(user, content_id));

    contract.unlike(user, user, content_id).unwrap();
    assert_eq!(contract.like_count(content_id), 0);
    assert!(!contract.has_liked(user, content_id));
}

#[test]
fn test_like_count_accuracy() {
    let mut contract = ContentLikes::new();
    let user1 = 1;
    let user2 = 2;
    let user3 = 3;
    let content_id = 42u32;

    contract.like(user1, user1, content_id).unwrap();
    assert_eq!(contract.like_count(content_id), 1);

    contract.like(user2, user2, content_id).unwrap();
    assert_eq!(contract.like_count(content_id), 2);

    contract.like(user3, user3, content_id).unwrap();
    assert_eq!(contract.like_count(content_id), 3);

    contract.unlike(user2, user2, content_id).unwrap();
    assert_eq!(contract.like_count(content_id), 2);

    assert!(contract.has_liked(user1, content_id));
    assert!(!contract.has_liked(user2, content_id));
    assert!(contract.has_liked(user3, content_id));
}

#[test]
fn test_double_like_idempotent() {
    let mut contract = ContentLikes::new();
    let user = 1;
    let content_id = 99u32;

    contract.like(user, user, content_id).unwrap();
    assert_eq!(contract.like_count(content_id), 1);

    contract.like(user, user, content_id).unwrap();
    assert_eq!(contract.like_count(content_id), 1);

    contract.like(user, user, content_id).unwrap();
    assert_eq!(contract.like_count(content_id), 1);

    assert!(contract.has_liked(user, content_id));
}

#[test]
fn test_unlike_when_not_liked_reverts() {
    let mut contract = ContentLikes::new();
    let user = 1;
    let content_id = 5u32;

    assert_eq!(contract.unlike(user, user, content_id), Err(Error::NotLiked));
}

#[test]
fn test_unlike_twice_reverts() {
    let mut contract = ContentLikes::new();
    let user = 1;
    let content_id = 7u32;

    contract.like(user, user, content_id).unwrap();
    contract.unlike(user, user, content_id).unwrap();

    assert_eq!(contract.unlike(user, user, content_id), Err(Error::NotLiked));
}

#[test]
fn test_multiple_content_items() {
    let mut contract = ContentLikes::new();
    let user = 1;

    contract.like(user, user, 1u32).unwrap();
    contract.like(user, user, 2u32).unwrap();
    contract.like(user, user, 3u32).unwrap();

    assert_eq!(contract.like_count(1u32), 1);
    assert_eq!(contract.like_count(2u32), 1);
    assert_eq!(contract.like_count(3u32), 1);

    assert!(contract.has_liked(user, 1u32));
    assert!(contract.has_liked(user, 2u32));
    assert!(contract.has_liked(user, 3u32));

    contract.unlike(user, user, 2u32).unwrap();

    assert_eq!(contract.like_count(1u32), 1);
    assert_eq!(contract.like_count(2u32), 0);
    assert_eq!(contract.like_count(3u32), 1);
}

#[test]
fn test_zero_likes_queries() {
    let mut contract = ContentLikes::new();
    let user = 1;
    let content_id = 100u32;

    assert_eq!(contract.like_count(content_id), 0);
    assert!(!contract.has_liked(user, content_id));
}

#[test]
fn like_requires_user_approval() {
    let mut contract = ContentLikes::new();
    let user = 1;
    let intruder = 2;

    assert_eq!(contract.like(intruder, user, 1u32), Err(Error::Unauthorized));
    assert_eq!(contract.like_count(1u32), 0);
    assert_eq!(contract.unlike(intruder, user, 1u32), Err(Error::Unauthorized));
}

#[test]
fn like_unlike_scenario_counts() {
    // One like counts once; a repeat is a no-op; an unlike removes it; a
    // second unlike is an error.
    let mut contract = ContentLikes::new();
    let user = 7;
    let content = 3u32;

    contract.like(user, user, content).unwrap();
    assert_eq!(contract.like_count(content), 1);

    contract.like(user, user, content).unwrap();
    assert_eq!(contract.like_count(content), 1);

    contract.unlike(user, user, content).unwrap();
    assert_eq!(contract.like_count(content), 0);

    assert_eq!(contract.unlike(user, user, content), Err(Error::NotLiked));
    assert_eq!(contract.like_count(content), 0);
}
