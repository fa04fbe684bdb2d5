//! The sample record: the unit of data produced once per tick and committed
//! once per write.

use vstd::prelude::*;
use crate::decode::{
    read_array_offset, read_register_offset, spec_scalar_at, spec_waveform_at,
};
use crate::layout::RegisterLayout;

verus! {

/// One acquisition tick: a sequence number assigned by the scheduler, the
/// capture timestamp taken before any register read, the scalar registers,
/// and one waveform per channel of the layout, in layout order.
///
/// A record is immutable after construction: it is produced exactly once
/// and consumed exactly once.
pub struct SampleRecord {
    pub sequence: u64,
    pub captured_at_nanos: u64,
    pub active_pulse: u32,
    pub total_pulse: u32,
    pub state: u32,
    pub waveforms: Vec<Vec<u16>>,
}

/// A scalar register word reduced to its low 32 bits, as the record carries
/// it.
pub open spec fn spec_scalar32_at(image: Seq<u8>, offset: int) -> u32 {
    (spec_scalar_at(image, offset) % 0x1_0000_0000) as u32
}

impl SampleRecord {
    /// The record has one waveform per channel of `layout`, each with the
    /// layout's element count.
    pub open spec fn matches_layout(&self, layout: &RegisterLayout) -> bool {
        &&& self.waveforms@.len() == layout.channels@.len()
        &&& forall|i: int|
            0 <= i < self.waveforms@.len()
                ==> #[trigger] self.waveforms@[i]@.len() == layout.samples_per_channel
    }

    /// The record is exactly what `layout` reads out of the scalar image
    /// `bar1` and the waveform image `dma`.
    pub open spec fn decodes(&self, layout: &RegisterLayout, bar1: Seq<u8>, dma: Seq<u8>) -> bool {
        &&& self.active_pulse == spec_scalar32_at(bar1, layout.active_pulse_offset as int)
        &&& self.total_pulse == spec_scalar32_at(bar1, layout.total_pulse_offset as int)
        &&& self.state == spec_scalar32_at(bar1, layout.state_offset as int)
        &&& self.waveforms@.len() == layout.channels@.len()
        &&& forall|i: int|
            0 <= i < self.waveforms@.len()
                ==> #[trigger] self.waveforms@[i]@ == spec_waveform_at(
                    dma,
                    layout.channels@[i].offset as int,
                    layout.samples_per_channel as int,
                )
    }
}

/// Reads a scalar register and keeps its low 32 bits, as the record stores
/// it.
fn read_scalar32(image: &[u8], offset: usize) -> (value: u32)
    requires
        offset + 8 <= image@.len(),
    ensures
        value == spec_scalar32_at(image@, offset as int),
{
    let raw = read_register_offset(image, offset);
    (raw % 0x1_0000_0000) as u32
}

/// Builds the record of one tick: decodes every scalar and every waveform
/// from its fixed offset, and stamps the record with the sequence number
/// and capture timestamp the scheduler assigned.
pub fn decode_record(
    layout: &RegisterLayout,
    bar1: &[u8],
    dma: &[u8],
    sequence: u64,
    captured_at_nanos: u64,
) -> (rec: SampleRecord)
    requires
        layout.scalars_fit(bar1@.len() as int),
        layout.waveforms_fit(dma@.len() as int),
    ensures
        rec.sequence == sequence,
        rec.captured_at_nanos == captured_at_nanos,
        rec.decodes(layout, bar1@, dma@),
        rec.matches_layout(layout),
{
    let active_pulse = read_scalar32(bar1, layout.active_pulse_offset);
    let total_pulse = read_scalar32(bar1, layout.total_pulse_offset);
    let state = read_scalar32(bar1, layout.state_offset);
    let n = layout.channels.len();
    let mut waveforms: Vec<Vec<u16>> = Vec::new();
    let mut i: usize = 0;
    while i < n
        invariant
            i <= n,
            n == layout.channels@.len(),
            layout.waveforms_fit(dma@.len() as int),
            waveforms@.len() == i,
            forall|a: int|
                0 <= a < i
                    ==> #[trigger] waveforms@[a]@ == spec_waveform_at(
                        dma@,
                        layout.channels@[a].offset as int,
                        layout.samples_per_channel as int,
                    ),
        decreases n - i,
    {
        let wave = read_array_offset(dma, layout.channels[i].offset, layout.samples_per_channel);
        waveforms.push(wave);
        i = i + 1;
    }
    SampleRecord { sequence, captured_at_nanos, active_pulse, total_pulse, state, waveforms }
}

} // verus!
