//! The sweep controller: a state machine that walks an account's post
//! history page by page, classifies every post by age, and asks for the
//! deletion of those past the retention window.
//!
//! Every remote call (authenticate, fetch a page, delete a post) is the
//! driver's business.  The controller answers each reported outcome with the
//! next [`Command`]; the driver performs it and reports back.  One fetch or
//! delete is in flight at a time, and the first failure of any remote call
//! ends the sweep: no partial count is ever reported as a success.

use vstd::prelude::*;

use crate::status::Status;
use crate::status::StatusAction;
use crate::status::spec_is_delete;

verus! {

/// Why a sweep ended without completing: the authentication round-trip
/// failed, a page request failed, or a delete call failed.
#[derive(Debug, Clone, Copy, PartialEq, Eq, Structural)]
pub enum SweepError {
    Auth,
    Fetch,
    Delete,
}

/// The most posts one page request may ask for: the cap the remote listing
/// protocol puts on a single call.  Every fetch command the controller
/// issues requests exactly this many.
pub const MAX_TIMELINE_COUNT: i32 = 200;

/// The remote call the driver must perform next.  Both fetch commands carry
/// the page size to request, always the protocol cap [`MAX_TIMELINE_COUNT`].
/// `Finish` means the sweep is over (completed or failed) and no further
/// remote call may be made.
#[derive(Debug, Clone, Copy, PartialEq, Eq, Structural)]
pub enum Command {
    Authenticate,
    FetchFirst { page_size: i32 },
    FetchNext { page_size: i32 },
    Delete { id: u64 },
    Finish,
}

/// The outcome of the last command, reported by the driver.  `Begin` is the
/// one event that comes from no command: it starts the sweep.  A fetched
/// page carries its posts newest-first, in the order the remote listing
/// returned them; an empty page means the history is exhausted.
#[derive(Debug)]
pub enum SweepEvent {
    Begin,
    AuthOk,
    AuthFailed,
    PageFetched { posts: Vec<Status> },
    FetchFailed,
    DeleteOk,
    DeleteFailed,
}

/// Where the controller stands.  `Fetching` awaits a page; `Deleting` awaits
/// the acknowledgement of the delete issued for the first pending
/// identifier, with the rest of the page's deletions queued behind it.
#[derive(Debug)]
pub enum SweepState {
    Start,
    Authenticating,
    Fetching { deleted: u64 },
    Deleting { deleted: u64, pending: Vec<u64> },
    Done { deleted: u64 },
    Failed { error: SweepError },
}

/// One sweep: the settings fixed at its start, and the current state.  The
/// reference time `now` is sampled once, so every post of the sweep is
/// judged against the same instant.
#[derive(Debug)]
pub struct Sweep {
    pub dry_run: bool,
    pub max_age_days: i64,
    pub now: i64,
    pub state: SweepState,
}

/// The mathematical model of a [`SweepState`]: the queue of pending
/// deletions becomes a sequence.
pub enum StateModel {
    Start,
    Authenticating,
    Fetching { deleted: u64 },
    Deleting { deleted: u64, pending: Seq<u64> },
    Done { deleted: u64 },
    Failed { error: SweepError },
}

/// The mathematical model of a [`SweepEvent`]: a fetched page becomes a
/// sequence of posts.
pub enum EventModel {
    Begin,
    AuthOk,
    AuthFailed,
    PageFetched { posts: Seq<Status> },
    FetchFailed,
    DeleteOk,
    DeleteFailed,
}

/// The mathematical model of a [`Sweep`].
pub struct SweepModel {
    pub dry_run: bool,
    pub max_age_days: i64,
    pub now: i64,
    pub state: StateModel,
}

impl View for SweepState {
    type V = StateModel;

    open spec fn view(&self) -> StateModel {
        match self {
            SweepState::Start => StateModel::Start,
            SweepState::Authenticating => StateModel::Authenticating,
            SweepState::Fetching { deleted } => StateModel::Fetching { deleted: *deleted },
            SweepState::Deleting { deleted, pending } => StateModel::Deleting {
                deleted: *deleted,
                pending: pending@,
            },
            SweepState::Done { deleted } => StateModel::Done { deleted: *deleted },
            SweepState::Failed { error } => StateModel::Failed { error: *error },
        }
    }
}

impl View for SweepEvent {
    type V = EventModel;

    open spec fn view(&self) -> EventModel {
        match self {
            SweepEvent::Begin => EventModel::Begin,
            SweepEvent::AuthOk => EventModel::AuthOk,
            SweepEvent::AuthFailed => EventModel::AuthFailed,
            SweepEvent::PageFetched { posts } => EventModel::PageFetched { posts: posts@ },
            SweepEvent::FetchFailed => EventModel::FetchFailed,
            SweepEvent::DeleteOk => EventModel::DeleteOk,
            SweepEvent::DeleteFailed => EventModel::DeleteFailed,
        }
    }
}

impl View for Sweep {
    type V = SweepModel;

    open spec fn view(&self) -> SweepModel {
        SweepModel {
            dry_run: self.dry_run,
            max_age_days: self.max_age_days,
            now: self.now,
            state: self.state@,
        }
    }
}

/// The identifiers of the posts of one page that the classification rule
/// deletes, in page order.
pub open spec fn spec_delete_ids(posts: Seq<Status>, max_age_days: int, now: int) -> Seq<u64>
    decreases posts.len(),
{
    if posts.len() == 0 {
        Seq::empty()
    } else {
        let rest = spec_delete_ids(posts.drop_last(), max_age_days, now);
        if spec_is_delete(posts.last().created_at as int, now, max_age_days) {
            rest.push(posts.last().id)
        } else {
            rest
        }
    }
}

/// Adds `n` further deletions to the running counter, saturating at the
/// largest representable count rather than wrapping.
pub open spec fn spec_count_add(deleted: u64, n: nat) -> u64 {
    if deleted + n > u64::MAX {
        u64::MAX
    } else {
        (deleted + n) as u64
    }
}

/// The transition function of the controller, total over state and event.
/// An event that answers no outstanding command leaves the state unchanged
/// and asks for nothing.
pub open spec fn spec_step(m: SweepModel, ev: EventModel) -> (SweepModel, Command) {
    match (m.state, ev) {
        (StateModel::Start, EventModel::Begin) => (
            SweepModel { state: StateModel::Authenticating, ..m },
            Command::Authenticate,
        ),
        (StateModel::Authenticating, EventModel::AuthOk) => (
            SweepModel { state: StateModel::Fetching { deleted: 0 }, ..m },
            Command::FetchFirst { page_size: MAX_TIMELINE_COUNT },
        ),
        (StateModel::Authenticating, EventModel::AuthFailed) => (
            SweepModel { state: StateModel::Failed { error: SweepError::Auth }, ..m },
            Command::Finish,
        ),
        (StateModel::Fetching { deleted }, EventModel::PageFetched { posts }) => {
            if posts.len() == 0 {
                (SweepModel { state: StateModel::Done { deleted }, ..m }, Command::Finish)
            } else {
                let ids = spec_delete_ids(posts, m.max_age_days as int, m.now as int);
                if m.dry_run || ids.len() == 0 {
                    (
                        SweepModel {
                            state: StateModel::Fetching {
                                deleted: spec_count_add(deleted, ids.len()),
                            },
                            ..m
                        },
                        Command::FetchNext { page_size: MAX_TIMELINE_COUNT },
                    )
                } else {
                    (
                        SweepModel { state: StateModel::Deleting { deleted, pending: ids }, ..m },
                        Command::Delete { id: ids[0] },
                    )
                }
            }
        },
        (StateModel::Fetching { .. }, EventModel::FetchFailed) => (
            SweepModel { state: StateModel::Failed { error: SweepError::Fetch }, ..m },
            Command::Finish,
        ),
        (StateModel::Deleting { deleted, pending }, EventModel::DeleteOk) => {
            if pending.len() == 0 {
                (m, Command::Finish)
            } else {
                let counted = spec_count_add(deleted, 1);
                let rest = pending.drop_first();
                if rest.len() == 0 {
                    (
                        SweepModel { state: StateModel::Fetching { deleted: counted }, ..m },
                        Command::FetchNext { page_size: MAX_TIMELINE_COUNT },
                    )
                } else {
                    (
                        SweepModel {
                            state: StateModel::Deleting { deleted: counted, pending: rest },
                            ..m
                        },
                        Command::Delete { id: rest[0] },
                    )
                }
            }
        },
        (StateModel::Deleting { .. }, EventModel::DeleteFailed) => (
            SweepModel { state: StateModel::Failed { error: SweepError::Delete }, ..m },
            Command::Finish,
        ),
        _ => (m, Command::Finish),
    }
}

/// Classifies every post of one page, in page order, and returns the
/// identifiers of those the classification rule deletes.
pub fn delete_candidates(posts: &Vec<Status>, max_age_days: i64, now: i64) -> (ids: Vec<u64>)
    ensures
        ids@ == spec_delete_ids(posts@, max_age_days as int, now as int),
{
    let mut ids: Vec<u64> = Vec::new();
    let mut i: usize = 0;
    while i < posts.len()
        invariant
            i <= posts.len(),
            ids@ == spec_delete_ids(posts@.take(i as int), max_age_days as int, now as int),
        decreases posts.len() - i,
    {
        let post = &posts[i];
        match post.action(max_age_days, now) {
            StatusAction::Delete(_) => ids.push(post.id),
            StatusAction::Keep(_) => (),
        }
        proof {
            assert(posts@.take(i + 1).drop_last() =~= posts@.take(i as int));
            assert(posts@.take(i + 1).last() == posts@[i as int]);
        }
        i += 1;
    }
    proof {
        assert(posts@.take(posts@.len() as int) =~= posts@);
    }
    ids
}

/// Adds `n` further deletions to the running counter, saturating at the
/// largest representable count.
fn count_add(deleted: u64, n: usize) -> (r: u64)
    ensures
        r == spec_count_add(deleted, n as nat),
{
    if (n as u64) > u64::MAX - deleted {
        u64::MAX
    } else {
        deleted + (n as u64)
    }
}

impl Sweep {
    /// A sweep ready to begin, with its settings fixed: whether deletions
    /// are only simulated, the retention window in days, and the reference
    /// time (seconds since the Unix epoch) every post is judged against.
    pub fn new(dry_run: bool, max_age_days: i64, now: i64) -> (s: Sweep)
        ensures
            s@ == (SweepModel { dry_run, max_age_days, now, state: StateModel::Start }),
    {
        Sweep { dry_run, max_age_days, now, state: SweepState::Start }
    }

    /// A sweep ready to begin, judged against the system clock as it reads
    /// at this moment: the reference time of [`Sweep::new`], sampled once
    /// here, so that a long sweep judges every post against one instant.
    pub fn new_from_clock(dry_run: bool, max_age_days: i64) -> (s: Sweep)
        ensures
            s@.dry_run == dry_run,
            s@.max_age_days == max_age_days,
            s@.state == StateModel::Start,
    {
        let now = crate::clock::now_timestamp_seconds();
        Sweep::new(dry_run, max_age_days, now)
    }

    /// Consumes one reported outcome and answers with the next command.
    /// The pair returned is exactly what the transition function
    /// [`spec_step`] says.
    pub fn step(self, event: SweepEvent) -> (r: (Sweep, Command))
        ensures
            (r.0@, r.1) == spec_step(self@, event@),
    {
        let Sweep { dry_run, max_age_days, now, state } = self;
        match (state, event) {
            (SweepState::Start, SweepEvent::Begin) => (
                Sweep { dry_run, max_age_days, now, state: SweepState::Authenticating },
                Command::Authenticate,
            ),
            (SweepState::Authenticating, SweepEvent::AuthOk) => (
                Sweep { dry_run, max_age_days, now, state: SweepState::Fetching { deleted: 0 } },
                Command::FetchFirst { page_size: MAX_TIMELINE_COUNT },
            ),
            (SweepState::Authenticating, SweepEvent::AuthFailed) => (
                Sweep {
                    dry_run,
                    max_age_days,
                    now,
                    state: SweepState::Failed { error: SweepError::Auth },
                },
                Command::Finish,
            ),
            (SweepState::Fetching { deleted }, SweepEvent::PageFetched { posts }) => {
                if posts.len() == 0 {
                    (
                        Sweep {
                            dry_run,
                            max_age_days,
                            now,
                            state: SweepState::Done { deleted },
                        },
                        Command::Finish,
                    )
                } else {
                    let ids = delete_candidates(&posts, max_age_days, now);
                    if dry_run || ids.len() == 0 {
                        let counted = count_add(deleted, ids.len());
                        (
                            Sweep {
                                dry_run,
                                max_age_days,
                                now,
                                state: SweepState::Fetching { deleted: counted },
                            },
                            Command::FetchNext { page_size: MAX_TIMELINE_COUNT },
                        )
                    } else {
                        let first = ids[0];
                        (
                            Sweep {
                                dry_run,
                                max_age_days,
                                now,
                                state: SweepState::Deleting { deleted, pending: ids },
                            },
                            Command::Delete { id: first },
                        )
                    }
                }
            },
            (SweepState::Fetching { deleted }, SweepEvent::FetchFailed) => (
                Sweep {
                    dry_run,
                    max_age_days,
                    now,
                    state: SweepState::Failed { error: SweepError::Fetch },
                },
                Command::Finish,
            ),
            (SweepState::Deleting { deleted, mut pending }, SweepEvent::DeleteOk) => {
                if pending.len() == 0 {
                    (
                        Sweep {
                            dry_run,
                            max_age_days,
                            now,
                            state: SweepState::Deleting { deleted, pending },
                        },
                        Command::Finish,
                    )
                } else {
                    let ghost queued = pending@;
                    let counted = count_add(deleted, 1);
                    pending.remove(0);
                    proof {
                        assert(pending@ =~= queued.drop_first());
                    }
                    if pending.len() == 0 {
                        (
                            Sweep {
                                dry_run,
                                max_age_days,
                                now,
                                state: SweepState::Fetching { deleted: counted },
                            },
                            Command::FetchNext { page_size: MAX_TIMELINE_COUNT },
                        )
                    } else {
                        let next_id = pending[0];
                        (
                            Sweep {
                                dry_run,
                                max_age_days,
                                now,
                                state: SweepState::Deleting { deleted: counted, pending },
                            },
                            Command::Delete { id: next_id },
                        )
                    }
                }
            },
            (SweepState::Deleting { deleted, pending }, SweepEvent::DeleteFailed) => (
                Sweep {
                    dry_run,
                    max_age_days,
                    now,
                    state: SweepState::Failed { error: SweepError::Delete },
                },
                Command::Finish,
            ),
            (state, _) => (Sweep { dry_run, max_age_days, now, state }, Command::Finish),
        }
    }
}

} // verus!
