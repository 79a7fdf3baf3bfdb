use tweetdelete::status::{Status, StatusAction, SECONDS_PER_DAY};

fn post_with_age(id: u64, age_seconds: i64, now: i64) -> Status {
    Status::new(id, now - age_seconds, String::from("post"))
}

#[test]
fn age_exactly_at_window_is_kept() {
    let now: i64 = 1_000_000_000;
    let post = post_with_age(1, 180 * SECONDS_PER_DAY, now);
    assert!(matches!(post.action(180, now), StatusAction::Keep(_)));
}

#[test]
fn one_second_past_window_is_deleted() {
    let now: i64 = 1_000_000_000;
    let post = post_with_age(1, 180 * SECONDS_PER_DAY + 1, now);
    assert!(matches!(post.action(180, now), StatusAction::Delete(_)));
}

#[test]
fn fresh_post_is_kept_even_with_zero_window() {
    let now: i64 = 1_000_000_000;
    let post = post_with_age(1, 0, now);
    assert!(matches!(post.action(0, now), StatusAction::Keep(_)));
}

#[test]
fn one_second_old_post_with_zero_window_is_deleted() {
    let now: i64 = 1_000_000_000;
    let post = post_with_age(1, 1, now);
    assert!(matches!(post.action(0, now), StatusAction::Delete(_)));
}

#[test]
fn future_post_is_kept() {
    let now: i64 = 1_000_000_000;
    let post = post_with_age(1, -50, now);
    assert!(matches!(post.action(0, now), StatusAction::Keep(_)));
}

#[test]
fn action_reports_the_age() {
    let now: i64 = 1_000_000_000;
    let post = post_with_age(7, 123_456, now);
    match post.action(0, now) {
        StatusAction::Delete(age) => assert_eq!(age, 123_456),
        StatusAction::Keep(_) => panic!("a post older than the window must be deleted"),
    }
}

#[test]
fn widening_the_window_never_deletes_a_kept_post() {
    let now: i64 = 1_000_000_000;
    let post = post_with_age(1, 100 * SECONDS_PER_DAY, now);
    assert!(matches!(post.action(50, now), StatusAction::Delete(_)));
    assert!(matches!(post.action(99, now), StatusAction::Delete(_)));
    assert!(matches!(post.action(100, now), StatusAction::Keep(_)));
    assert!(matches!(post.action(150, now), StatusAction::Keep(_)));
}

#[test]
fn huge_window_is_classified_without_panic() {
    let now: i64 = 1_000_000_000;
    let post = post_with_age(1, 500, now);
    assert!(matches!(post.action(i64::MAX, now), StatusAction::Keep(_)));
}
