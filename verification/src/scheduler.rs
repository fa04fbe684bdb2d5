//! The sampler/scheduler: one record per fixed-period tick.
//!
//! Each tick captures a timestamp, decodes every scalar and waveform from
//! the fixed layout offsets, and stamps the record with the next sequence
//! number.  The sequence counter never skips and never repeats.  The tick
//! that reaches the run deadline is still delivered; the loop ends after
//! it.  The cadence busy-wait itself is timed by `clock::cadence_elapsed`.

use vstd::prelude::*;
use crate::layout::RegisterLayout;
use crate::record::{decode_record, SampleRecord};

verus! {

/// The scheduler's state: the immutable layout table, the run deadline,
/// and the sequence counter owned exclusively by this component.
pub struct Scheduler {
    pub layout: RegisterLayout,
    pub deadline_nanos: u64,
    pub next_sequence: u64,
}

impl Scheduler {
    /// A scheduler that will produce records numbered from zero until the
    /// first tick whose capture timestamp reaches `deadline_nanos`.
    pub fn new(layout: RegisterLayout, deadline_nanos: u64) -> (sched: Scheduler)
        ensures
            sched.layout == layout,
            sched.deadline_nanos == deadline_nanos,
            sched.next_sequence == 0,
    {
        Scheduler { layout, deadline_nanos, next_sequence: 0 }
    }

    /// One tick: builds the record of the images captured at
    /// `captured_at_nanos` and says whether this was the boundary tick, the
    /// one at or past the deadline, after which the run ends.
    pub fn tick(&mut self, captured_at_nanos: u64, bar1: &[u8], dma: &[u8]) -> (r: (
        SampleRecord,
        bool,
    ))
        requires
            old(self).layout.scalars_fit(bar1@.len() as int),
            old(self).layout.waveforms_fit(dma@.len() as int),
            old(self).next_sequence < u64::MAX,
        ensures
            final(self).layout == old(self).layout,
            final(self).deadline_nanos == old(self).deadline_nanos,
            final(self).next_sequence == old(self).next_sequence + 1,
            r.0.sequence == old(self).next_sequence,
            r.0.captured_at_nanos == captured_at_nanos,
            r.0.decodes(&old(self).layout, bar1@, dma@),
            r.0.matches_layout(&old(self).layout),
            r.1 == (captured_at_nanos >= old(self).deadline_nanos),
    {
        let rec = decode_record(&self.layout, bar1, dma, self.next_sequence, captured_at_nanos);
        self.next_sequence = self.next_sequence + 1;
        let done = captured_at_nanos >= self.deadline_nanos;
        (rec, done)
    }

    /// Runs ticks over the given capture instants until the deadline tick
    /// has been delivered or the instants run out: the produced records
    /// carry contiguous sequence numbers, every tick before the boundary
    /// tick lies before the deadline, and the boundary tick itself is
    /// still included.
    pub fn run(&mut self, capture_times: &Vec<u64>, bar1: &[u8], dma: &[u8]) -> (records: Vec<
        SampleRecord,
    >)
        requires
            old(self).layout.scalars_fit(bar1@.len() as int),
            old(self).layout.waveforms_fit(dma@.len() as int),
            old(self).next_sequence + capture_times@.len() <= u64::MAX,
        ensures
            final(self).layout == old(self).layout,
            final(self).deadline_nanos == old(self).deadline_nanos,
            final(self).next_sequence == old(self).next_sequence + records@.len(),
            records@.len() <= capture_times@.len(),
            forall|i: int|
                0 <= i < records@.len() ==> {
                    &&& (#[trigger] records@[i]).sequence == old(self).next_sequence + i
                    &&& records@[i].captured_at_nanos == capture_times@[i]
                    &&& records@[i].decodes(&old(self).layout, bar1@, dma@)
                    &&& records@[i].matches_layout(&old(self).layout)
                },
            forall|i: int|
                0 <= i < records@.len() - 1
                    ==> #[trigger] capture_times@[i] < old(self).deadline_nanos,
            records@.len() < capture_times@.len() ==> records@.len() > 0
                && capture_times@[records@.len() - 1] >= old(self).deadline_nanos,
    {
        let n = capture_times.len();
        let mut records: Vec<SampleRecord> = Vec::new();
        let mut i: usize = 0;
        let mut stopped = false;
        while i < n && !stopped
            invariant
                i <= n,
                n == capture_times@.len(),
                self.layout == old(self).layout,
                self.deadline_nanos == old(self).deadline_nanos,
                self.next_sequence == old(self).next_sequence + i,
                old(self).next_sequence + n <= u64::MAX,
                self.layout.scalars_fit(bar1@.len() as int),
                self.layout.waveforms_fit(dma@.len() as int),
                records@.len() == i,
                forall|a: int|
                    0 <= a < i ==> {
                        &&& (#[trigger] records@[a]).sequence == old(self).next_sequence + a
                        &&& records@[a].captured_at_nanos == capture_times@[a]
                        &&& records@[a].decodes(&old(self).layout, bar1@, dma@)
                        &&& records@[a].matches_layout(&old(self).layout)
                    },
                stopped ==> i > 0 && capture_times@[i - 1] >= old(self).deadline_nanos,
                forall|a: int|
                    0 <= a < i && !(stopped && a == i - 1)
                        ==> #[trigger] capture_times@[a] < old(self).deadline_nanos,
            decreases n - i,
        {
            let (rec, done) = self.tick(capture_times[i], bar1, dma);
            records.push(rec);
            stopped = done;
            i = i + 1;
        }
        records
    }
}

} // verus!
