use tweetdelete::status::{Status, SECONDS_PER_DAY};
use tweetdelete::sweep::{
    delete_candidates, Command, Sweep, SweepError, SweepEvent, SweepState, MAX_TIMELINE_COUNT,
};

const NOW: i64 = 1_000_000_000;

fn post_aged_days(id: u64, days: i64) -> Status {
    Status::new(id, NOW - days * SECONDS_PER_DAY, format!("post {}", id))
}

struct Outcome {
    fetch_calls: usize,
    issued_deletes: Vec<u64>,
    end: Sweep,
}

/// Drives one sweep against a scripted history: authentication succeeds,
/// each fetch serves the next scripted page, and each delete call succeeds,
/// except the one at position `fail_delete_at`, which fails.
fn run_sweep(
    dry_run: bool,
    max_age_days: i64,
    pages: Vec<Vec<Status>>,
    fail_delete_at: Option<usize>,
) -> Outcome {
    let mut sweep = Sweep::new(dry_run, max_age_days, NOW);
    let mut fetch_calls: usize = 0;
    let mut issued_deletes: Vec<u64> = Vec::new();
    let mut pages = pages.into_iter();
    let mut event = SweepEvent::Begin;
    loop {
        let (next, cmd) = sweep.step(event);
        sweep = next;
        event = match cmd {
            Command::Authenticate => SweepEvent::AuthOk,
            Command::FetchFirst { page_size } | Command::FetchNext { page_size } => {
                assert_eq!(page_size, MAX_TIMELINE_COUNT);
                fetch_calls += 1;
                match pages.next() {
                    Some(posts) => SweepEvent::PageFetched { posts },
                    None => panic!("the sweep fetched past the scripted history"),
                }
            }
            Command::Delete { id } => {
                let position = issued_deletes.len();
                issued_deletes.push(id);
                if fail_delete_at == Some(position) {
                    SweepEvent::DeleteFailed
                } else {
                    SweepEvent::DeleteOk
                }
            }
            Command::Finish => break,
        };
    }
    Outcome { fetch_calls, issued_deletes, end: sweep }
}

#[test]
fn one_page_with_one_old_post_deletes_it() {
    let pages = vec![
        vec![post_aged_days(1, 10), post_aged_days(2, 200), post_aged_days(3, 180)],
        vec![],
    ];
    let outcome = run_sweep(false, 180, pages, None);
    assert_eq!(outcome.issued_deletes, vec![2]);
    assert!(matches!(outcome.end.state, SweepState::Done { deleted: 1 }));
}

#[test]
fn two_pages_of_kept_posts_delete_nothing() {
    let pages = vec![vec![post_aged_days(1, 10), post_aged_days(2, 20)], vec![]];
    let outcome = run_sweep(false, 180, pages, None);
    assert_eq!(outcome.issued_deletes, Vec::<u64>::new());
    assert_eq!(outcome.fetch_calls, 2);
    assert!(matches!(outcome.end.state, SweepState::Done { deleted: 0 }));
}

#[test]
fn each_page_is_fetched_exactly_once() {
    let pages = vec![
        vec![post_aged_days(1, 1)],
        vec![post_aged_days(2, 2)],
        vec![post_aged_days(3, 3)],
        vec![],
    ];
    let outcome = run_sweep(false, 180, pages, None);
    assert_eq!(outcome.fetch_calls, 4);
    assert!(matches!(outcome.end.state, SweepState::Done { deleted: 0 }));
}

#[test]
fn deletions_follow_page_order() {
    let pages = vec![
        vec![post_aged_days(5, 200), post_aged_days(3, 300), post_aged_days(9, 400)],
        vec![post_aged_days(8, 500)],
        vec![],
    ];
    let outcome = run_sweep(false, 180, pages, None);
    assert_eq!(outcome.issued_deletes, vec![5, 3, 9, 8]);
    assert!(matches!(outcome.end.state, SweepState::Done { deleted: 4 }));
}

#[test]
fn dry_run_issues_no_delete_call_but_counts() {
    let pages = vec![
        vec![post_aged_days(1, 200), post_aged_days(2, 300), post_aged_days(3, 10)],
        vec![post_aged_days(4, 400)],
        vec![],
    ];
    let outcome = run_sweep(true, 180, pages, None);
    assert_eq!(outcome.issued_deletes, Vec::<u64>::new());
    assert!(matches!(outcome.end.state, SweepState::Done { deleted: 3 }));
}

#[test]
fn a_failed_delete_aborts_the_sweep() {
    let pages = vec![
        vec![post_aged_days(1, 200), post_aged_days(2, 300)],
        vec![post_aged_days(3, 400)],
        vec![],
    ];
    let outcome = run_sweep(false, 180, pages, Some(0));
    assert_eq!(outcome.issued_deletes, vec![1]);
    assert_eq!(outcome.fetch_calls, 1);
    assert!(matches!(
        outcome.end.state,
        SweepState::Failed { error: SweepError::Delete }
    ));
}

#[test]
fn a_delete_failure_mid_page_stops_the_rest() {
    let pages = vec![
        vec![post_aged_days(1, 200), post_aged_days(2, 300), post_aged_days(3, 400)],
        vec![],
    ];
    let outcome = run_sweep(false, 180, pages, Some(1));
    assert_eq!(outcome.issued_deletes, vec![1, 2]);
    assert!(matches!(
        outcome.end.state,
        SweepState::Failed { error: SweepError::Delete }
    ));
}

#[test]
fn authentication_failure_stops_the_sweep_at_once() {
    let sweep = Sweep::new(false, 180, NOW);
    let (sweep, cmd) = sweep.step(SweepEvent::Begin);
    assert_eq!(cmd, Command::Authenticate);
    let (sweep, cmd) = sweep.step(SweepEvent::AuthFailed);
    assert_eq!(cmd, Command::Finish);
    assert!(matches!(sweep.state, SweepState::Failed { error: SweepError::Auth }));
    let (sweep, cmd) = sweep.step(SweepEvent::PageFetched { posts: vec![] });
    assert_eq!(cmd, Command::Finish);
    assert!(matches!(sweep.state, SweepState::Failed { error: SweepError::Auth }));
}

#[test]
fn a_failed_fetch_aborts_the_sweep() {
    let sweep = Sweep::new(false, 180, NOW);
    let (sweep, _) = sweep.step(SweepEvent::Begin);
    let (sweep, cmd) = sweep.step(SweepEvent::AuthOk);
    assert_eq!(cmd, Command::FetchFirst { page_size: 200 });
    let (sweep, cmd) = sweep.step(SweepEvent::FetchFailed);
    assert_eq!(cmd, Command::Finish);
    assert!(matches!(sweep.state, SweepState::Failed { error: SweepError::Fetch }));
}

#[test]
fn a_page_of_one_post_is_processed_like_any_other() {
    let pages = vec![vec![post_aged_days(1, 200)], vec![]];
    let outcome = run_sweep(false, 180, pages, None);
    assert_eq!(outcome.issued_deletes, vec![1]);
    assert!(matches!(outcome.end.state, SweepState::Done { deleted: 1 }));
}

#[test]
fn the_deletion_counter_saturates_instead_of_wrapping() {
    let sweep = Sweep {
        dry_run: true,
        max_age_days: 0,
        now: NOW,
        state: SweepState::Fetching { deleted: u64::MAX },
    };
    let (sweep, cmd) = sweep.step(SweepEvent::PageFetched {
        posts: vec![post_aged_days(1, 200)],
    });
    assert_eq!(cmd, Command::FetchNext { page_size: 200 });
    assert!(matches!(sweep.state, SweepState::Fetching { deleted: u64::MAX }));
}

#[test]
fn delete_candidates_picks_the_old_posts_in_order() {
    let page = vec![
        post_aged_days(1, 200),
        post_aged_days(2, 10),
        post_aged_days(3, 181),
        post_aged_days(4, 180),
    ];
    assert_eq!(delete_candidates(&page, 180, NOW), vec![1, 3]);
}

#[test]
fn a_new_sweep_starts_in_the_start_state() {
    let sweep = Sweep::new(true, 30, NOW);
    assert!(sweep.dry_run);
    assert_eq!(sweep.max_age_days, 30);
    assert_eq!(sweep.now, NOW);
    assert!(matches!(sweep.state, SweepState::Start));
}

#[test]
fn a_clock_based_sweep_starts_in_the_start_state() {
    let sweep = Sweep::new_from_clock(false, 180);
    assert!(!sweep.dry_run);
    assert_eq!(sweep.max_age_days, 180);
    assert!(matches!(sweep.state, SweepState::Start));
}
