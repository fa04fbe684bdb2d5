//! The archive entry of one record.
//!
//! Each committed record becomes one named group in the archive file: the
//! group is named by the capture timestamp, carries the scalar registers and
//! the sequence number as attributes, and one named dataset per waveform
//! channel, in layout order.  This module fixes that shape; the unverified
//! rim only copies it into the container file.

use vstd::prelude::*;
use crate::layout::RegisterLayout;
use crate::record::SampleRecord;
use crate::timefmt::{record_label, spec_record_label};
use vstd::slice::slice_to_vec;

verus! {

/// Everything that one record's archive group holds, in write order: the
/// group name, the scalar attributes, and the named waveform datasets.
pub struct RecordEntry {
    pub group_name: String,
    pub attrs: Vec<(String, u64)>,
    pub datasets: Vec<(String, Vec<u16>)>,
}

impl RecordEntry {
    /// The entry is exactly the archive shape of `rec` under `layout`.
    pub open spec fn describes(&self, rec: &SampleRecord, layout: &RegisterLayout) -> bool {
        &&& self.group_name@ == spec_record_label(rec.captured_at_nanos)
        &&& self.attrs@.len() == 5
        &&& self.attrs@[0].0@ == "internal_count"@ && self.attrs@[0].1 == rec.sequence
        &&& self.attrs@[1].0@ == "active_pulse"@ && self.attrs@[1].1 == rec.active_pulse as u64
        &&& self.attrs@[2].0@ == "total_pulse"@ && self.attrs@[2].1 == rec.total_pulse as u64
        &&& self.attrs@[3].0@ == "state"@ && self.attrs@[3].1 == rec.state as u64
        &&& self.attrs@[4].0@ == "datetime"@ && self.attrs@[4].1 == rec.captured_at_nanos
        &&& self.datasets@.len() == layout.channels@.len()
        &&& forall|i: int|
            0 <= i < self.datasets@.len()
                ==> (#[trigger] self.datasets@[i]).0@ == layout.channels@[i].name@
                    && self.datasets@[i].1@ == rec.waveforms@[i]@
    }
}

/// Builds the archive entry of one record: the timestamp-derived group
/// name, the five scalar attributes in write order, and one named dataset
/// per channel, paired name-to-waveform from the layout table.
pub fn record_entry(rec: &SampleRecord, layout: &RegisterLayout) -> (entry: RecordEntry)
    requires
        rec.matches_layout(layout),
        rec.captured_at_nanos <= i64::MAX as u64,
    ensures
        entry.describes(rec, layout),
{
    let group_name = record_label(rec.captured_at_nanos);
    let mut attrs: Vec<(String, u64)> = Vec::new();
    attrs.push(("internal_count".to_owned(), rec.sequence));
    attrs.push(("active_pulse".to_owned(), rec.active_pulse as u64));
    attrs.push(("total_pulse".to_owned(), rec.total_pulse as u64));
    attrs.push(("state".to_owned(), rec.state as u64));
    attrs.push(("datetime".to_owned(), rec.captured_at_nanos));
    let n = layout.channels.len();
    let mut datasets: Vec<(String, Vec<u16>)> = Vec::new();
    let mut i: usize = 0;
    while i < n
        invariant
            i <= n,
            n == layout.channels@.len(),
            rec.waveforms@.len() == n,
            datasets@.len() == i,
            forall|a: int|
                0 <= a < i
                    ==> (#[trigger] datasets@[a]).0@ == layout.channels@[a].name@
                        && datasets@[a].1@ == rec.waveforms@[a]@,
        decreases n - i,
    {
        let name = layout.channels[i].name.clone();
        let wave = slice_to_vec(rec.waveforms[i].as_slice());
        datasets.push((name, wave));
        i = i + 1;
    }
    RecordEntry { group_name, attrs, datasets }
}

/// The name of the auxiliary attribute that records how long the write of
/// an entry took; it is written after the datasets.
pub fn write_duration_attr_name() -> (name: String)
    ensures
        name@ == "write_duration"@,
{
    "write_duration".to_owned()
}

} // verus!
