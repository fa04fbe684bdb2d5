//! Laws of the pipeline as a whole: sequencing of committed records, drain
//! completeness, and the once-per-boundary rotation rule.
//!
//! The record channel is strictly first-in first-out with a single producer
//! and a single consumer, so records reach the recorder in production
//! order; these laws say what the recorder's commit log then looks like.

use vstd::prelude::*;
use crate::clock::spec_next_day_boundary;
use crate::recorder::Recorder;

verus! {

/// The recorder received and committed records in production order: entry
/// `i` of the commit log carries the `i`-th sequence number the scheduler
/// assigned.
pub open spec fn commits_in_production_order(
    commits: Seq<(u64, u64)>,
    first_sequence: u64,
) -> bool {
    forall|i: int|
        0 <= i < commits.len() ==> (#[trigger] commits[i]).0 == first_sequence + i
}

/// Sequencing: when records are committed in production order, the
/// committed sequence values are strictly increasing, with no duplicates
/// and no gaps — any two committed records differ in sequence by exactly
/// their distance in the log.
pub proof fn lemma_committed_sequencing(
    commits: Seq<(u64, u64)>,
    first_sequence: u64,
    i: int,
    j: int,
)
    requires
        commits_in_production_order(commits, first_sequence),
        0 <= i < j < commits.len(),
    ensures
        commits[i].0 < commits[j].0,
        commits[j].0 - commits[i].0 == j - i,
{
}

/// The commit log that results from draining a queue: every queued record
/// committed one by one, in order, into the session that is active during
/// the drain.
pub open spec fn drained_log(
    commits: Seq<(u64, u64)>,
    queued: Seq<u64>,
    session: u64,
) -> Seq<(u64, u64)>
    decreases queued.len(),
{
    if queued.len() == 0 {
        commits
    } else {
        drained_log(commits.push((queued[0], session)), queued.drop_first(), session)
    }
}

/// Drain completeness: once the shutdown signal is seen, committing the
/// queued records until the queue is empty extends the commit log by
/// exactly the queue — every record that was in the channel is committed,
/// exactly once, in order, and every earlier commit is untouched.
pub proof fn lemma_drain_completeness(commits: Seq<(u64, u64)>, queued: Seq<u64>, session: u64)
    ensures
        drained_log(commits, queued, session).len() == commits.len() + queued.len(),
        forall|i: int|
            0 <= i < commits.len() ==> #[trigger] drained_log(commits, queued, session)[i]
                == commits[i],
        forall|i: int|
            0 <= i < queued.len() ==> #[trigger] drained_log(commits, queued, session)[commits.len()
                + i] == (queued[i], session),
    decreases queued.len(),
{
    if queued.len() > 0 {
        let stepped = commits.push((queued[0], session));
        lemma_drain_completeness(stepped, queued.drop_first(), session);
        assert forall|i: int| 0 <= i < queued.len() implies #[trigger] drained_log(
            commits,
            queued,
            session,
        )[commits.len() + i] == (queued[i], session) by {
            if i == 0 {
                assert(drained_log(commits, queued, session)[commits.len() as int]
                    == stepped[commits.len() as int]);
            } else {
                assert(drained_log(stepped, queued.drop_first(), session)[stepped.len() + (i - 1)]
                    == (queued.drop_first()[i - 1], session));
            }
        }
    }
}

/// Idempotent session boundary: right after a rotation at `now`, the new
/// session's boundary is the next midnight, so no further rotation is due
/// at any instant of the same window — at most one session closes per
/// calendar-day boundary crossed, however many ticks check it.
pub proof fn lemma_rotation_idempotent(r: &Recorder, now: u64, later: u64)
    requires
        r.session.day_boundary_nanos == spec_next_day_boundary(now),
        later < spec_next_day_boundary(now),
    ensures
        !r.spec_needs_rotation(later),
{
}

} // verus!
