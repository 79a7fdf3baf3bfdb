//! A remote post reduced to the fields the sweep reads, and the rule that
//! classifies one post as kept or deleted by its age.

use vstd::prelude::*;

verus! {

/// Number of seconds in one day, the unit conversion between the retention
/// window (whole days) and post ages (seconds).
pub const SECONDS_PER_DAY: i64 = 86400;

/// The decision taken for one post: delete it or keep it.  Both variants
/// carry the post's age at classification time, in seconds, so that log
/// output can mention the age of a deleted post.
#[derive(Debug, Clone, Copy, PartialEq, Eq, Structural)]
pub enum StatusAction {
    Delete(i128),
    Keep(i128),
}

/// One remote post, reduced to what the sweep reads of it: a stable
/// identifier, the creation time as whole seconds since the Unix epoch, and
/// the display text.  The sweep only receives such values; it never mutates
/// them.
#[derive(Debug, Clone)]
pub struct Status {
    pub id: u64,
    pub created_at: i64,
    pub text: String,
}

/// The classification rule: a post is deleted exactly when its age is
/// strictly greater than the retention window.  A post whose age equals the
/// window to the second is kept.
pub open spec fn spec_is_delete(created_at: int, now: int, max_age_days: int) -> bool {
    now - created_at > max_age_days * (SECONDS_PER_DAY as int)
}

impl Status {
    pub fn new(id: u64, created_at: i64, text: String) -> (s: Status)
        ensures
            s.id == id,
            s.created_at == created_at,
            s.text == text,
    {
        Status { id, created_at, text }
    }

    /// Classifies this post against a retention window of `max_age_days`
    /// days, using `now` (seconds since the Unix epoch) as the reference
    /// time.  The reference time is sampled once per sweep, so every post of
    /// one sweep is judged against the same instant.  Total: any combination
    /// of timestamps and window is classified.
    pub fn action(&self, max_age_days: i64, now: i64) -> (r: StatusAction)
        ensures
            r == if spec_is_delete(self.created_at as int, now as int, max_age_days as int) {
                StatusAction::Delete((now - self.created_at) as i128)
            } else {
                StatusAction::Keep((now - self.created_at) as i128)
            },
    {
        let age: i128 = (now as i128) - (self.created_at as i128);
        proof {
            assert((-0x8000_0000_0000_0000) * 86400 <= (max_age_days as int) * 86400
                <= 0x8000_0000_0000_0000 * 86400) by (nonlinear_arith)
                requires
                    -0x8000_0000_0000_0000 <= max_age_days as int <= 0x8000_0000_0000_0000,
            ;
        }
        let window: i128 = (max_age_days as i128) * (SECONDS_PER_DAY as i128);
        if age > window {
            StatusAction::Delete(age)
        } else {
            StatusAction::Keep(age)
        }
    }
}

/// Boundary law: a post whose age is exactly the retention window (in whole
/// seconds, with no remainder) is kept, and a post one second older, or
/// more, is deleted.
pub proof fn lemma_classify_boundary(created_at: int, now: int, max_age_days: int)
    ensures
        now - created_at == max_age_days * (SECONDS_PER_DAY as int) ==> !spec_is_delete(
            created_at,
            now,
            max_age_days,
        ),
        now - created_at >= max_age_days * (SECONDS_PER_DAY as int) + 1 ==> spec_is_delete(
            created_at,
            now,
            max_age_days,
        ),
{
}

/// Monotonicity law: for a fixed post and reference time, widening the
/// retention window never turns a kept post into a deleted one, and
/// narrowing it never turns a deleted post into a kept one.
pub proof fn lemma_classify_monotonic(created_at: int, now: int, narrow: int, wide: int)
    requires
        narrow <= wide,
    ensures
        !spec_is_delete(created_at, now, narrow) ==> !spec_is_delete(created_at, now, wide),
        spec_is_delete(created_at, now, wide) ==> spec_is_delete(created_at, now, narrow),
{
    assert(narrow * (SECONDS_PER_DAY as int) <= wide * (SECONDS_PER_DAY as int)) by (nonlinear_arith)
        requires narrow <= wide;
}

} // verus!
