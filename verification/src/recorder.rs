//! The recorder: archive-session lifecycle, rotation at day boundaries,
//! commit accounting, flush pacing, and the shutdown drain protocol.
//!
//! The recorder owns the active session exclusively.  Exactly one session
//! is open at a time; a session that leaves the recorder is closing and is
//! never written again.  A ghost log of `(sequence, session index)` pairs
//! records every commit, so the contracts can say which session each
//! record went to and that rotation drops nothing.

use vstd::prelude::*;
use crate::clock::{next_day_boundary, spec_next_day_boundary};
use crate::record::SampleRecord;
use crate::timefmt::{session_file_name, spec_session_name};

verus! {

/// Where a session stands in its life: open and accepting writes, or
/// closing, after which it is only offloaded and never written again.
pub enum SessionPhase {
    Open,
    Closing,
}

/// One archive file covering one calendar day: its timestamp-derived file
/// name, the instant it was opened, the day boundary at which it must
/// rotate, and how many records it has committed since open.
pub struct Session {
    pub path: String,
    pub opened_at_nanos: u64,
    pub day_boundary_nanos: u64,
    pub record_count: u64,
    pub phase: SessionPhase,
}

impl Session {
    /// A session freshly opened at `now`: named from `now`, empty, open,
    /// and due to rotate at the next midnight after `now`.
    pub open spec fn is_fresh(&self, now: u64) -> bool {
        &&& self.path@ == spec_session_name(now)
        &&& self.opened_at_nanos == now
        &&& self.day_boundary_nanos == spec_next_day_boundary(now)
        &&& self.record_count == 0
        &&& self.phase is Open
    }

    /// Opens a new session at `now`.
    pub fn open(now: u64) -> (session: Session)
        requires
            now <= i64::MAX as u64,
        ensures
            session.is_fresh(now),
    {
        let path = session_file_name(now);
        let day_boundary_nanos = next_day_boundary(now);
        Session {
            path,
            opened_at_nanos: now,
            day_boundary_nanos,
            record_count: 0,
            phase: SessionPhase::Open,
        }
    }
}

/// The recorder's state: the one active session, counters for flush pacing
/// and session numbering, the drain flag, and the ghost commit log.
pub struct Recorder {
    pub flush_every: u64,
    pub session: Session,
    pub sessions_opened: u64,
    pub committed_total: u64,
    pub draining: bool,
    pub commits: Ghost<Seq<(u64, u64)>>,
}

impl Recorder {
    /// The recorder's invariant: the active session is open, the flush
    /// period is positive, and the counters agree with the commit log.
    pub open spec fn well_formed(&self) -> bool {
        &&& self.flush_every >= 1
        &&& self.session.phase is Open
        &&& self.committed_total == self.commits@.len()
        &&& self.session.record_count <= self.committed_total
        &&& self.sessions_opened >= 1
    }

    /// The active session must rotate: the wall clock has reached its day
    /// boundary.
    pub open spec fn spec_needs_rotation(&self, now: u64) -> bool {
        now >= self.session.day_boundary_nanos
    }

    /// Starts the recorder at `now`: opens the first session, with nothing
    /// committed yet and no drain requested.  Failing to open this first
    /// session is fatal to the process, so there is no recorder state for
    /// it.
    pub fn start(now: u64, flush_every: u64) -> (rec: Recorder)
        requires
            now <= i64::MAX as u64,
            flush_every >= 1,
        ensures
            rec.well_formed(),
            rec.flush_every == flush_every,
            rec.session.is_fresh(now),
            rec.sessions_opened == 1,
            rec.committed_total == 0,
            !rec.draining,
            rec.commits@ =~= Seq::<(u64, u64)>::empty(),
    {
        Recorder {
            flush_every,
            session: Session::open(now),
            sessions_opened: 1,
            committed_total: 0,
            draining: false,
            commits: Ghost(Seq::empty()),
        }
    }

    /// Decides whether the active session has reached its day boundary.
    pub fn rotation_due(&self, now: u64) -> (due: bool)
        ensures
            due == self.spec_needs_rotation(now),
    {
        now >= self.session.day_boundary_nanos
    }

    /// Rotates at a day boundary: closes the active session and opens a
    /// fresh one named from `now`.  Exactly one session leaves, in the
    /// closing phase, ready for offload; the commit log and every counter
    /// of committed work are untouched, so no record is lost at the
    /// boundary.  The new boundary lies strictly after `now`, so a second
    /// check in the same window finds no rotation due.
    pub fn rotate(&mut self, now: u64) -> (closed: Session)
        requires
            old(self).well_formed(),
            old(self).spec_needs_rotation(now),
            now <= i64::MAX as u64,
            old(self).sessions_opened < u64::MAX,
        ensures
            final(self).well_formed(),
            closed.path@ == old(self).session.path@,
            closed.opened_at_nanos == old(self).session.opened_at_nanos,
            closed.day_boundary_nanos == old(self).session.day_boundary_nanos,
            closed.record_count == old(self).session.record_count,
            closed.phase is Closing,
            final(self).session.is_fresh(now),
            final(self).sessions_opened == old(self).sessions_opened + 1,
            final(self).committed_total == old(self).committed_total,
            final(self).commits@ == old(self).commits@,
            final(self).draining == old(self).draining,
            final(self).flush_every == old(self).flush_every,
            !final(self).spec_needs_rotation(now),
    {
        let closed = Session {
            path: self.session.path.clone(),
            opened_at_nanos: self.session.opened_at_nanos,
            day_boundary_nanos: self.session.day_boundary_nanos,
            record_count: self.session.record_count,
            phase: SessionPhase::Closing,
        };
        self.session = Session::open(now);
        self.sessions_opened = self.sessions_opened + 1;
        closed
    }

    /// Accounts for one record handed to the write path.  On a successful
    /// write the record is committed: it is appended to the commit log
    /// tagged with the session that was active at the moment of the write,
    /// and the counters advance.  A failed write is recoverable: it commits
    /// nothing and the loop goes on, so one bad record cannot lose the rest
    /// of the stream.  Returns whether a periodic flush is now due: one
    /// after every `flush_every` committed records of this session.
    pub fn commit(&mut self, rec: &SampleRecord, write_ok: bool) -> (flush_now: bool)
        requires
            old(self).well_formed(),
            old(self).committed_total < u64::MAX,
        ensures
            final(self).well_formed(),
            write_ok ==> {
                &&& final(self).session.record_count == old(self).session.record_count + 1
                &&& final(self).committed_total == old(self).committed_total + 1
                &&& final(self).commits@ == old(self).commits@.push(
                    (rec.sequence, old(self).sessions_opened),
                )
            },
            !write_ok ==> {
                &&& final(self).session.record_count == old(self).session.record_count
                &&& final(self).committed_total == old(self).committed_total
                &&& final(self).commits@ == old(self).commits@
            },
            flush_now == (write_ok && (old(self).session.record_count + 1) as int
                % old(self).flush_every as int == 0),
            final(self).session.path@ == old(self).session.path@,
            final(self).session.opened_at_nanos == old(self).session.opened_at_nanos,
            final(self).session.day_boundary_nanos == old(self).session.day_boundary_nanos,
            final(self).session.phase == old(self).session.phase,
            final(self).sessions_opened == old(self).sessions_opened,
            final(self).draining == old(self).draining,
            final(self).flush_every == old(self).flush_every,
    {
        if write_ok {
            self.session.record_count = self.session.record_count + 1;
            self.committed_total = self.committed_total + 1;
            self.commits = Ghost(self.commits@.push((rec.sequence, self.sessions_opened)));
            self.session.record_count % self.flush_every == 0
        } else {
            false
        }
    }

    /// Notes the shutdown signal: the drain phase begins.  The signal is
    /// observed at most once meaningfully; noting it again changes
    /// nothing.
    pub fn begin_drain(&mut self)
        ensures
            final(self).draining,
            final(self).flush_every == old(self).flush_every,
            final(self).session == old(self).session,
            final(self).sessions_opened == old(self).sessions_opened,
            final(self).committed_total == old(self).committed_total,
            final(self).commits@ == old(self).commits@,
    {
        self.draining = true;
    }

    /// Ends the recorder after the drain: the active session closes
    /// exactly once and is handed back for the final, synchronously
    /// awaited offload.
    pub fn finish(self) -> (closed: Session)
        requires
            self.well_formed(),
            self.draining,
        ensures
            closed.path@ == self.session.path@,
            closed.opened_at_nanos == self.session.opened_at_nanos,
            closed.day_boundary_nanos == self.session.day_boundary_nanos,
            closed.record_count == self.session.record_count,
            closed.phase is Closing,
    {
        let Session { path, opened_at_nanos, day_boundary_nanos, record_count, phase: _ } =
            self.session;
        Session {
            path,
            opened_at_nanos,
            day_boundary_nanos,
            record_count,
            phase: SessionPhase::Closing,
        }
    }
}

} // verus!
