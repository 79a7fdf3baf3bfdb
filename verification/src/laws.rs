//! Laws of the sweep controller, proved of its transition function.
//!
//! The controller is driven by events; [`spec_run`] folds a whole event
//! sequence through the transition function and collects every command the
//! controller issues.  The laws then say what a complete sweep looks like:
//! it fetches one page per non-empty page plus the final empty one and ends
//! in `Done`; in dry-run mode it never asks for a delete call yet counts
//! every post the rule classifies for deletion; a failed delete or fetch
//! call aborts the sweep, after which no fetch or delete is ever asked for
//! again; and a failed authentication ends the sweep before any fetch.

use vstd::prelude::*;

use crate::status::Status;
use crate::sweep::Command;
use crate::sweep::MAX_TIMELINE_COUNT;
use crate::sweep::EventModel;
use crate::sweep::StateModel;
use crate::sweep::SweepError;
use crate::sweep::SweepModel;
use crate::sweep::spec_count_add;
use crate::sweep::spec_delete_ids;
use crate::sweep::spec_step;

verus! {

/// Folds `events` one by one through the transition function, starting from
/// `m`: the final model, and every command issued along the way, in order.
pub open spec fn spec_run(m: SweepModel, events: Seq<EventModel>) -> (SweepModel, Seq<Command>)
    decreases events.len(),
{
    if events.len() == 0 {
        (m, Seq::empty())
    } else {
        let first = spec_step(m, events.first());
        let rest = spec_run(first.0, events.drop_first());
        (rest.0, seq![first.1] + rest.1)
    }
}

/// Whether a command asks for a page fetch.
pub open spec fn spec_is_fetch(c: Command) -> bool {
    c is FetchFirst || c is FetchNext
}

/// How many page fetches a command sequence asks for.
pub open spec fn spec_fetch_count(cmds: Seq<Command>) -> nat
    decreases cmds.len(),
{
    if cmds.len() == 0 {
        0
    } else {
        (if spec_is_fetch(cmds.first()) {
            1nat
        } else {
            0nat
        }) + spec_fetch_count(cmds.drop_first())
    }
}

/// The identifiers whose deletion a command sequence asks for, in order.
pub open spec fn spec_deletes_of(cmds: Seq<Command>) -> Seq<u64>
    decreases cmds.len(),
{
    if cmds.len() == 0 {
        Seq::empty()
    } else {
        let rest = spec_deletes_of(cmds.drop_first());
        match cmds.first() {
            Command::Delete { id } => seq![id] + rest,
            _ => rest,
        }
    }
}

/// Running a concatenation of event sequences runs the first, then the
/// second from where the first ended, and issues the two command sequences
/// one after the other.
pub proof fn lemma_run_append(m: SweepModel, a: Seq<EventModel>, b: Seq<EventModel>)
    ensures
        ({
            let ra = spec_run(m, a);
            let rb = spec_run(ra.0, b);
            spec_run(m, a + b) == (rb.0, ra.1 + rb.1)
        }),
    decreases a.len(),
{
    if a.len() == 0 {
        assert(a + b =~= b);
        let rb = spec_run(m, b);
        assert(spec_run(m, a).1 + rb.1 =~= rb.1);
    } else {
        let first = spec_step(m, a.first());
        assert((a + b).first() == a.first());
        assert((a + b).drop_first() =~= a.drop_first() + b);
        lemma_run_append(first.0, a.drop_first(), b);
        let ra_rest = spec_run(first.0, a.drop_first());
        let rb = spec_run(ra_rest.0, b);
        assert(seq![first.1] + (ra_rest.1 + rb.1) =~= (seq![first.1] + ra_rest.1) + rb.1);
    }
}

/// Fetch counting distributes over concatenation.
pub proof fn lemma_fetch_count_append(a: Seq<Command>, b: Seq<Command>)
    ensures
        spec_fetch_count(a + b) == spec_fetch_count(a) + spec_fetch_count(b),
    decreases a.len(),
{
    if a.len() == 0 {
        assert(a + b =~= b);
    } else {
        assert((a + b).first() == a.first());
        assert((a + b).drop_first() =~= a.drop_first() + b);
        lemma_fetch_count_append(a.drop_first(), b);
    }
}

/// Delete-identifier extraction distributes over concatenation.
pub proof fn lemma_deletes_of_append(a: Seq<Command>, b: Seq<Command>)
    ensures
        spec_deletes_of(a + b) == spec_deletes_of(a) + spec_deletes_of(b),
    decreases a.len(),
{
    if a.len() == 0 {
        assert(a + b =~= b);
        assert(spec_deletes_of(a) + spec_deletes_of(b) =~= spec_deletes_of(b));
    } else {
        assert((a + b).first() == a.first());
        assert((a + b).drop_first() =~= a.drop_first() + b);
        lemma_deletes_of_append(a.drop_first(), b);
        let rest_a = spec_deletes_of(a.drop_first());
        let db = spec_deletes_of(b);
        match a.first() {
            Command::Delete { id } => {
                assert(seq![id] + (rest_a + db) =~= (seq![id] + rest_a) + db);
            },
            _ => {},
        }
    }
}

/// A failed sweep is inert: whatever the driver reports afterwards, the
/// state never changes and no fetch or delete is ever asked for again.
pub proof fn lemma_failed_inert(m: SweepModel, events: Seq<EventModel>)
    requires
        m.state is Failed,
    ensures
        ({
            let r = spec_run(m, events);
            &&& r.0 == m
            &&& spec_fetch_count(r.1) == 0
            &&& spec_deletes_of(r.1) == Seq::<u64>::empty()
        }),
    decreases events.len(),
{
    if events.len() == 0 {
    } else {
        let first = spec_step(m, events.first());
        assert(first.0 == m && first.1 == Command::Finish);
        lemma_failed_inert(m, events.drop_first());
        let rest = spec_run(m, events.drop_first());
        assert((seq![first.1] + rest.1).drop_first() =~= rest.1);
        assert(spec_deletes_of(seq![first.1] + rest.1) =~= Seq::<u64>::empty());
    }
}

/// The run of a command sequence of one element.
proof fn lemma_run_one(m: SweepModel, ev: EventModel)
    ensures
        spec_run(m, seq![ev]) == (spec_step(m, ev).0, seq![spec_step(m, ev).1]),
{
    reveal_with_fuel(spec_run, 2);
    assert(seq![ev].drop_first() =~= Seq::<EventModel>::empty());
    assert(seq![spec_step(m, ev).1] + Seq::<Command>::empty() =~= seq![spec_step(m, ev).1]);
}

/// What the extractors say of a single command.
proof fn lemma_cmds_singleton(c: Command)
    ensures
        spec_fetch_count(seq![c]) == if spec_is_fetch(c) {
            1nat
        } else {
            0nat
        },
        spec_deletes_of(seq![c]) == (match c {
            Command::Delete { id } => seq![id],
            _ => Seq::<u64>::empty(),
        }),
{
    reveal_with_fuel(spec_fetch_count, 2);
    reveal_with_fuel(spec_deletes_of, 2);
    assert(seq![c].drop_first() =~= Seq::<Command>::empty());
    match c {
        Command::Delete { id } => {
            assert(seq![id] + Seq::<u64>::empty() =~= seq![id]);
        },
        _ => {},
    }
}

/// The events an obedient driver reports for one fetched page when every
/// delete call succeeds: the page itself, then one acknowledgement per
/// delete the controller asks for (none in dry-run mode).
pub open spec fn spec_page_events(
    dry_run: bool,
    max_age_days: i64,
    now: i64,
    posts: Seq<Status>,
) -> Seq<EventModel> {
    let n: nat = if dry_run {
        0nat
    } else {
        spec_delete_ids(posts, max_age_days as int, now as int).len()
    };
    seq![EventModel::PageFetched { posts }] + Seq::new(n, |i: int| EventModel::DeleteOk)
}

/// The events an obedient driver reports for a whole succession of pages,
/// every remote call succeeding.
pub open spec fn spec_pages_events(
    dry_run: bool,
    max_age_days: i64,
    now: i64,
    pages: Seq<Seq<Status>>,
) -> Seq<EventModel>
    decreases pages.len(),
{
    if pages.len() == 0 {
        Seq::empty()
    } else {
        spec_page_events(dry_run, max_age_days, now, pages.first()) + spec_pages_events(
            dry_run,
            max_age_days,
            now,
            pages.drop_first(),
        )
    }
}

/// The identifiers the classification rule deletes over a whole succession
/// of pages, in sweep order.
pub open spec fn spec_pages_delete_ids(
    max_age_days: i64,
    now: i64,
    pages: Seq<Seq<Status>>,
) -> Seq<u64>
    decreases pages.len(),
{
    if pages.len() == 0 {
        Seq::empty()
    } else {
        spec_delete_ids(pages.first(), max_age_days as int, now as int) + spec_pages_delete_ids(
            max_age_days,
            now,
            pages.drop_first(),
        )
    }
}

/// A complete post history as the remote listing serves it: some non-empty
/// pages, then the empty page that signals exhaustion.
pub open spec fn spec_history(pages: Seq<Seq<Status>>) -> bool {
    &&& pages.len() >= 1
    &&& pages.last().len() == 0
    &&& forall|i: int| 0 <= i < pages.len() - 1 ==> #[trigger] pages[i].len() > 0
}

/// Draining the queued deletions of one page: one acknowledgement per
/// pending identifier moves the controller back to fetching, counts every
/// acknowledged deletion, asks for the remaining deletions in order, and
/// asks for exactly one further fetch.
proof fn lemma_drain(m: SweepModel, deleted: u64, pending: Seq<u64>)
    requires
        m.state == (StateModel::Deleting { deleted, pending }),
        pending.len() >= 1,
        deleted + pending.len() <= u64::MAX,
    ensures
        ({
            let r = spec_run(m, Seq::new(pending.len(), |i: int| EventModel::DeleteOk));
            &&& r.0 == (SweepModel {
                state: StateModel::Fetching { deleted: (deleted + pending.len()) as u64 },
                ..m
            })
            &&& spec_deletes_of(r.1) == pending.drop_first()
            &&& spec_fetch_count(r.1) == 1
        }),
    decreases pending.len(),
{
    reveal_with_fuel(spec_run, 2);
    let events = Seq::new(pending.len(), |i: int| EventModel::DeleteOk);
    assert(events.first() == EventModel::DeleteOk);
    let s1 = spec_step(m, EventModel::DeleteOk);
    assert(spec_count_add(deleted, 1) == deleted + 1);
    let rest_p = pending.drop_first();
    if pending.len() == 1 {
        assert(s1.0 == (SweepModel {
            state: StateModel::Fetching { deleted: (deleted + 1) as u64 },
            ..m
        }));
        assert(s1.1 == (Command::FetchNext { page_size: MAX_TIMELINE_COUNT }));
        assert(events.drop_first() =~= Seq::<EventModel>::empty());
        let r = spec_run(m, events);
        assert(r.1 =~= seq![Command::FetchNext { page_size: MAX_TIMELINE_COUNT }]);
        lemma_cmds_singleton(Command::FetchNext { page_size: MAX_TIMELINE_COUNT });
        assert(spec_deletes_of(r.1) =~= rest_p);
    } else {
        assert(s1.0 == (SweepModel {
            state: StateModel::Deleting { deleted: (deleted + 1) as u64, pending: rest_p },
            ..m
        }));
        assert(s1.1 == (Command::Delete { id: rest_p[0] }));
        lemma_drain(s1.0, (deleted + 1) as u64, rest_p);
        assert(events.drop_first() =~= Seq::new(rest_p.len(), |i: int| EventModel::DeleteOk));
        let r2 = spec_run(s1.0, Seq::new(rest_p.len(), |i: int| EventModel::DeleteOk));
        let r = spec_run(m, events);
        assert(r.0 == r2.0);
        assert(r.1 == seq![s1.1] + r2.1);
        lemma_deletes_of_append(seq![s1.1], r2.1);
        lemma_fetch_count_append(seq![s1.1], r2.1);
        lemma_cmds_singleton(s1.1);
        assert(seq![rest_p[0]] + rest_p.drop_first() =~= rest_p);
    }
}

/// Processing one non-empty page, every delete call succeeding: the
/// controller counts exactly the posts the rule deletes, asks for their
/// deletion in page order (for none of them in dry-run mode), asks for
/// exactly one further fetch, and awaits the next page.
proof fn lemma_page(m: SweepModel, deleted: u64, posts: Seq<Status>)
    requires
        m.state == (StateModel::Fetching { deleted }),
        posts.len() > 0,
        deleted + spec_delete_ids(posts, m.max_age_days as int, m.now as int).len() <= u64::MAX,
    ensures
        ({
            let ids = spec_delete_ids(posts, m.max_age_days as int, m.now as int);
            let r = spec_run(m, spec_page_events(m.dry_run, m.max_age_days, m.now, posts));
            &&& r.0 == (SweepModel {
                state: StateModel::Fetching { deleted: (deleted + ids.len()) as u64 },
                ..m
            })
            &&& spec_deletes_of(r.1) == if m.dry_run {
                Seq::<u64>::empty()
            } else {
                ids
            }
            &&& spec_fetch_count(r.1) == 1
        }),
{
    let ids = spec_delete_ids(posts, m.max_age_days as int, m.now as int);
    let n: nat = if m.dry_run {
        0nat
    } else {
        ids.len()
    };
    let a = seq![EventModel::PageFetched { posts }];
    let b = Seq::new(n, |i: int| EventModel::DeleteOk);
    assert(spec_page_events(m.dry_run, m.max_age_days, m.now, posts) == a + b);
    let s1 = spec_step(m, EventModel::PageFetched { posts });
    lemma_run_one(m, EventModel::PageFetched { posts });
    lemma_run_append(m, a, b);
    let r = spec_run(m, a + b);
    if m.dry_run || ids.len() == 0 {
        assert(s1.0 == (SweepModel {
            state: StateModel::Fetching { deleted: spec_count_add(deleted, ids.len()) },
            ..m
        }));
        assert(s1.1 == (Command::FetchNext { page_size: MAX_TIMELINE_COUNT }));
        assert(spec_count_add(deleted, ids.len()) == deleted + ids.len());
        assert(b.len() == 0);
        assert(spec_run(s1.0, b) == (s1.0, Seq::<Command>::empty()));
        assert(r.1 =~= seq![Command::FetchNext { page_size: MAX_TIMELINE_COUNT }]);
        lemma_cmds_singleton(Command::FetchNext { page_size: MAX_TIMELINE_COUNT });
        assert(spec_deletes_of(r.1) =~= Seq::<u64>::empty());
        if !m.dry_run {
            assert(ids =~= Seq::<u64>::empty());
        }
    } else {
        assert(s1.0 == (SweepModel { state: StateModel::Deleting { deleted, pending: ids }, ..m }));
        assert(s1.1 == (Command::Delete { id: ids[0] }));
        lemma_drain(s1.0, deleted, ids);
        let r2 = spec_run(s1.0, b);
        assert(r.0 == r2.0);
        assert(r.1 == seq![s1.1] + r2.1);
        lemma_deletes_of_append(seq![s1.1], r2.1);
        lemma_fetch_count_append(seq![s1.1], r2.1);
        lemma_cmds_singleton(s1.1);
        assert(seq![ids[0]] + ids.drop_first() =~= ids);
    }
}

/// A complete sweep over a history, starting from the fetch of its first
/// page, every remote call succeeding: the controller ends in `Done`, counts
/// exactly the posts the rule deletes, asks for their deletion in sweep
/// order (for none in dry-run mode), and asks for one fetch per non-empty
/// page.
proof fn lemma_history(m: SweepModel, deleted: u64, pages: Seq<Seq<Status>>)
    requires
        m.state == (StateModel::Fetching { deleted }),
        spec_history(pages),
        deleted + spec_pages_delete_ids(m.max_age_days, m.now, pages).len() <= u64::MAX,
    ensures
        ({
            let all_ids = spec_pages_delete_ids(m.max_age_days, m.now, pages);
            let r = spec_run(m, spec_pages_events(m.dry_run, m.max_age_days, m.now, pages));
            &&& r.0 == (SweepModel {
                state: StateModel::Done { deleted: (deleted + all_ids.len()) as u64 },
                ..m
            })
            &&& spec_deletes_of(r.1) == if m.dry_run {
                Seq::<u64>::empty()
            } else {
                all_ids
            }
            &&& spec_fetch_count(r.1) == pages.len() - 1
        }),
    decreases pages.len(),
{
    let all_ids = spec_pages_delete_ids(m.max_age_days, m.now, pages);
    let first_ids = spec_delete_ids(pages.first(), m.max_age_days as int, m.now as int);
    let rest_ids = spec_pages_delete_ids(m.max_age_days, m.now, pages.drop_first());
    assert(all_ids == first_ids + rest_ids);
    let a = spec_page_events(m.dry_run, m.max_age_days, m.now, pages.first());
    let b = spec_pages_events(m.dry_run, m.max_age_days, m.now, pages.drop_first());
    lemma_run_append(m, a, b);
    let r = spec_run(m, a + b);
    if pages.len() == 1 {
        assert(pages.first() == pages.last());
        assert(first_ids =~= Seq::<u64>::empty());
        assert(a =~= seq![EventModel::PageFetched { posts: pages.first() }]);
        assert(b =~= Seq::<EventModel>::empty());
        let s1 = spec_step(m, EventModel::PageFetched { posts: pages.first() });
        assert(s1.0 == (SweepModel { state: StateModel::Done { deleted }, ..m }));
        assert(s1.1 == Command::Finish);
        lemma_run_one(m, EventModel::PageFetched { posts: pages.first() });
        assert(spec_run(s1.0, b) == (s1.0, Seq::<Command>::empty()));
        assert(r.1 =~= seq![Command::Finish]);
        lemma_cmds_singleton(Command::Finish);
        assert(all_ids =~= Seq::<u64>::empty());
        assert(spec_deletes_of(r.1) =~= Seq::<u64>::empty());
    } else {
        assert(pages[0].len() > 0);
        lemma_page(m, deleted, pages.first());
        let ra = spec_run(m, a);
        let m1 = ra.0;
        assert(m1 == (SweepModel {
            state: StateModel::Fetching { deleted: (deleted + first_ids.len()) as u64 },
            ..m
        }));
        assert(pages.drop_first().last() == pages.last());
        assert forall|i: int| 0 <= i < pages.drop_first().len() - 1 implies #[trigger] pages
            .drop_first()[i].len() > 0 by {
            assert(pages.drop_first()[i] == pages[i + 1]);
        }
        lemma_history(m1, (deleted + first_ids.len()) as u64, pages.drop_first());
        let rb = spec_run(m1, b);
        assert(r.0 == rb.0);
        assert(r.1 == ra.1 + rb.1);
        lemma_deletes_of_append(ra.1, rb.1);
        lemma_fetch_count_append(ra.1, rb.1);
        if !m.dry_run {
            assert(spec_deletes_of(r.1) == first_ids + rest_ids);
        } else {
            assert(spec_deletes_of(r.1) =~= Seq::<u64>::empty());
        }
    }
}

/// Pagination-termination law: a sweep over a history of some non-empty
/// pages followed by one empty page, with every remote call succeeding,
/// asks for exactly one fetch per page (the first fetch plus one per
/// non-empty page) and ends in `Done`, counting exactly the posts the
/// classification rule deletes and asking for their deletion in sweep order
/// (in dry-run mode, asking for none).
pub proof fn lemma_complete_sweep(m: SweepModel, pages: Seq<Seq<Status>>)
    requires
        m.state is Start,
        spec_history(pages),
        spec_pages_delete_ids(m.max_age_days, m.now, pages).len() <= u64::MAX,
    ensures
        ({
            let all_ids = spec_pages_delete_ids(m.max_age_days, m.now, pages);
            let events = seq![EventModel::Begin, EventModel::AuthOk] + spec_pages_events(
                m.dry_run,
                m.max_age_days,
                m.now,
                pages,
            );
            let r = spec_run(m, events);
            &&& r.0.state == (StateModel::Done { deleted: all_ids.len() as u64 })
            &&& spec_fetch_count(r.1) == pages.len()
            &&& spec_deletes_of(r.1) == (if m.dry_run {
                Seq::<u64>::empty()
            } else {
                all_ids
            })
        }),
{
    let a1 = seq![EventModel::Begin];
    let a2 = seq![EventModel::AuthOk];
    let a = seq![EventModel::Begin, EventModel::AuthOk];
    let b = spec_pages_events(m.dry_run, m.max_age_days, m.now, pages);
    assert(a =~= a1 + a2);
    let s1 = spec_step(m, EventModel::Begin);
    let s2 = spec_step(s1.0, EventModel::AuthOk);
    lemma_run_one(m, EventModel::Begin);
    lemma_run_one(s1.0, EventModel::AuthOk);
    lemma_run_append(m, a1, a2);
    let ra = spec_run(m, a);
    assert(ra.0 == s2.0);
    assert(ra.1 == seq![s1.1] + seq![s2.1]);
    assert(s2.0 == (SweepModel { state: StateModel::Fetching { deleted: 0 }, ..m }));
    lemma_history(s2.0, 0, pages);
    lemma_run_append(m, a, b);
    let rb = spec_run(s2.0, b);
    lemma_fetch_count_append(ra.1, rb.1);
    lemma_deletes_of_append(ra.1, rb.1);
    lemma_fetch_count_append(seq![s1.1], seq![s2.1]);
    lemma_deletes_of_append(seq![s1.1], seq![s2.1]);
    lemma_cmds_singleton(s1.1);
    lemma_cmds_singleton(s2.1);
    let all_ids = spec_pages_delete_ids(m.max_age_days, m.now, pages);
    assert(spec_deletes_of(ra.1) =~= Seq::<u64>::empty());
    if m.dry_run {
        assert(spec_deletes_of(ra.1 + rb.1) =~= Seq::<u64>::empty());
    } else {
        assert(spec_deletes_of(ra.1 + rb.1) =~= all_ids);
    }
}

/// Dry-run law, one step: outside the delete-draining state, a dry-run
/// sweep never asks for a delete call and never enters the state that
/// would.
pub proof fn lemma_dry_run_step(m: SweepModel, ev: EventModel)
    requires
        m.dry_run,
        !(m.state is Deleting),
    ensures
        !(spec_step(m, ev).1 is Delete),
        !(spec_step(m, ev).0.state is Deleting),
        spec_step(m, ev).0.dry_run,
{
}

/// Dry-run law, whole runs: whatever the driver reports, a dry-run sweep
/// never asks for a single delete call.
pub proof fn lemma_dry_run_no_delete_calls(m: SweepModel, events: Seq<EventModel>)
    requires
        m.dry_run,
        !(m.state is Deleting),
    ensures
        spec_deletes_of(spec_run(m, events).1) == Seq::<u64>::empty(),
    decreases events.len(),
{
    if events.len() == 0 {
    } else {
        let s1 = spec_step(m, events.first());
        lemma_dry_run_step(m, events.first());
        lemma_dry_run_no_delete_calls(s1.0, events.drop_first());
        let rest = spec_run(s1.0, events.drop_first());
        assert((seq![s1.1] + rest.1).first() == s1.1);
        assert((seq![s1.1] + rest.1).drop_first() =~= rest.1);
        assert(spec_deletes_of(seq![s1.1] + rest.1) =~= Seq::<u64>::empty());
    }
}

/// Dry-run accounting law: a complete dry-run sweep issues no delete call,
/// yet reports a count equal to the number of posts the classification rule
/// deletes.
pub proof fn lemma_dry_run_accounting(m: SweepModel, pages: Seq<Seq<Status>>)
    requires
        m.state is Start,
        m.dry_run,
        spec_history(pages),
        spec_pages_delete_ids(m.max_age_days, m.now, pages).len() <= u64::MAX,
    ensures
        ({
            let all_ids = spec_pages_delete_ids(m.max_age_days, m.now, pages);
            let events = seq![EventModel::Begin, EventModel::AuthOk] + spec_pages_events(
                true,
                m.max_age_days,
                m.now,
                pages,
            );
            let r = spec_run(m, events);
            &&& r.0.state == (StateModel::Done { deleted: all_ids.len() as u64 })
            &&& spec_deletes_of(r.1) == Seq::<u64>::empty()
        }),
{
    lemma_complete_sweep(m, pages);
}

/// Fail-fast law: the moment a delete call fails, the sweep ends with the
/// delete failure, and whatever the driver reports afterwards, no further
/// fetch or delete is ever asked for.
pub proof fn lemma_fail_fast(m: SweepModel, events: Seq<EventModel>)
    requires
        m.state is Deleting,
    ensures
        ({
            let s1 = spec_step(m, EventModel::DeleteFailed);
            let r = spec_run(s1.0, events);
            &&& s1.0.state == (StateModel::Failed { error: SweepError::Delete })
            &&& s1.1 == Command::Finish
            &&& r.0 == s1.0
            &&& spec_fetch_count(r.1) == 0
            &&& spec_deletes_of(r.1) == Seq::<u64>::empty()
        }),
{
    lemma_failed_inert(spec_step(m, EventModel::DeleteFailed).0, events);
}

/// Authentication-failure law: if authentication fails, the sweep reports
/// the authentication failure at once, and whatever the driver reports
/// afterwards, no fetch and no delete is ever asked for.
pub proof fn lemma_auth_failure(m: SweepModel, events: Seq<EventModel>)
    requires
        m.state is Start,
    ensures
        ({
            let r = spec_run(m, seq![EventModel::Begin, EventModel::AuthFailed] + events);
            &&& r.0.state == (StateModel::Failed { error: SweepError::Auth })
            &&& spec_fetch_count(r.1) == 0
            &&& spec_deletes_of(r.1) == Seq::<u64>::empty()
        }),
{
    let a1 = seq![EventModel::Begin];
    let a2 = seq![EventModel::AuthFailed];
    let a = seq![EventModel::Begin, EventModel::AuthFailed];
    assert(a =~= a1 + a2);
    let s1 = spec_step(m, EventModel::Begin);
    let s2 = spec_step(s1.0, EventModel::AuthFailed);
    lemma_run_one(m, EventModel::Begin);
    lemma_run_one(s1.0, EventModel::AuthFailed);
    lemma_run_append(m, a1, a2);
    let ra = spec_run(m, a);
    assert(ra.0 == s2.0);
    assert(ra.1 == seq![s1.1] + seq![s2.1]);
    lemma_run_append(m, a, events);
    lemma_failed_inert(s2.0, events);
    let rb = spec_run(s2.0, events);
    lemma_fetch_count_append(ra.1, rb.1);
    lemma_deletes_of_append(ra.1, rb.1);
    lemma_fetch_count_append(seq![s1.1], seq![s2.1]);
    lemma_deletes_of_append(seq![s1.1], seq![s2.1]);
    lemma_cmds_singleton(s1.1);
    lemma_cmds_singleton(s2.1);
    assert(spec_deletes_of(ra.1 + rb.1) =~= Seq::<u64>::empty());
}

/// Whether a command that asks for a fetch requests exactly the protocol's
/// page-size cap.
pub open spec fn spec_fetch_requests_cap(c: Command) -> bool {
    match c {
        Command::FetchFirst { page_size } => page_size == MAX_TIMELINE_COUNT,
        Command::FetchNext { page_size } => page_size == MAX_TIMELINE_COUNT,
        _ => true,
    }
}

/// Page-size law: every fetch the controller ever asks for, from any state
/// and whatever the driver reports, requests exactly [`MAX_TIMELINE_COUNT`]
/// posts, the cap the remote listing protocol puts on one call.
pub proof fn lemma_fetches_request_the_cap(m: SweepModel, events: Seq<EventModel>)
    ensures
        forall|i: int|
            0 <= i < spec_run(m, events).1.len() ==> spec_fetch_requests_cap(
                #[trigger] spec_run(m, events).1[i],
            ),
    decreases events.len(),
{
    if events.len() == 0 {
    } else {
        let s1 = spec_step(m, events.first());
        lemma_fetches_request_the_cap(s1.0, events.drop_first());
        let rest = spec_run(s1.0, events.drop_first());
        assert(spec_fetch_requests_cap(s1.1));
        assert forall|i: int| 0 <= i < (seq![s1.1] + rest.1).len() implies spec_fetch_requests_cap(
            (seq![s1.1] + rest.1)[i],
        ) by {
            if i > 0 {
                assert((seq![s1.1] + rest.1)[i] == rest.1[i - 1]);
            }
        }
    }
}

} // verus!
