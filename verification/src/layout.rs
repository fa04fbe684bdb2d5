//! The register layout table: where in the register image each scalar and
//! each waveform lives.
//!
//! The sampler decodes every tick from the same fixed offsets, so the layout
//! is immutable configuration handed to the scheduler at construction.  Its
//! well-formedness asks that the waveform windows do not overlap and that no
//! window runs past the address space.

use vstd::prelude::*;

verus! {

/// One named acquisition channel: a fixed-length array of unsigned 16-bit
/// samples that starts at `offset` in the waveform register image.
pub struct ChannelSpec {
    pub name: String,
    pub offset: usize,
}

/// The full layout table: three scalar registers (each an 8-byte
/// little-endian word) and an ordered list of waveform channels, all with
/// the same element count.
pub struct RegisterLayout {
    pub active_pulse_offset: usize,
    pub total_pulse_offset: usize,
    pub state_offset: usize,
    pub samples_per_channel: usize,
    pub channels: Vec<ChannelSpec>,
}

impl RegisterLayout {
    /// The byte width of one waveform window: two bytes per sample.
    pub open spec fn window_bytes(&self) -> int {
        2 * self.samples_per_channel
    }

    /// Channels `i` and `j` read from disjoint byte ranges.
    pub open spec fn windows_disjoint(&self, i: int, j: int) -> bool {
        ||| self.channels@[i].offset + self.window_bytes() <= self.channels@[j].offset
        ||| self.channels@[j].offset + self.window_bytes() <= self.channels@[i].offset
    }

    /// A layout is well formed when every channel has at least one sample,
    /// no two waveform windows overlap, and no read can run past the
    /// address space.
    pub open spec fn well_formed(&self) -> bool {
        &&& self.samples_per_channel > 0
        &&& forall|i: int, j: int|
            0 <= i < j < self.channels@.len() ==> self.windows_disjoint(i, j)
        &&& forall|i: int|
            0 <= i < self.channels@.len()
                ==> #[trigger] self.channels@[i].offset + self.window_bytes() <= usize::MAX
        &&& self.active_pulse_offset + 8 <= usize::MAX
        &&& self.total_pulse_offset + 8 <= usize::MAX
        &&& self.state_offset + 8 <= usize::MAX
    }

    /// The scalar registers all fit in an image of `len` bytes.
    pub open spec fn scalars_fit(&self, len: int) -> bool {
        &&& self.active_pulse_offset + 8 <= len
        &&& self.total_pulse_offset + 8 <= len
        &&& self.state_offset + 8 <= len
    }

    /// Every waveform window fits in an image of `len` bytes.
    pub open spec fn waveforms_fit(&self, len: int) -> bool {
        forall|i: int|
            0 <= i < self.channels@.len()
                ==> #[trigger] self.channels@[i].offset + self.window_bytes() <= len
    }

    /// Decides well-formedness, so a caller can validate a layout that came
    /// in as configuration before sampling with it.
    pub fn check_well_formed(&self) -> (ok: bool)
        ensures
            ok == self.well_formed(),
    {
        if self.samples_per_channel == 0 {
            return false;
        }
        let window: u128 = 2 * (self.samples_per_channel as u128);
        if (self.active_pulse_offset as u128) + 8 > usize::MAX as u128
            || (self.total_pulse_offset as u128) + 8 > usize::MAX as u128
            || (self.state_offset as u128) + 8 > usize::MAX as u128 {
            return false;
        }
        let n = self.channels.len();
        let mut i: usize = 0;
        while i < n
            invariant
                n == self.channels@.len(),
                window == self.window_bytes(),
                forall|a: int|
                    0 <= a < i
                        ==> #[trigger] self.channels@[a].offset + self.window_bytes()
                            <= usize::MAX,
                forall|a: int, b: int|
                    0 <= a < b < n && a < i ==> self.windows_disjoint(a, b),
            decreases n - i,
        {
            if (self.channels[i].offset as u128) + window > usize::MAX as u128 {
                return false;
            }
            let mut j: usize = i + 1;
            while j < n
                invariant
                    i < j,
                    i < n,
                    n == self.channels@.len(),
                    window == self.window_bytes(),
                    forall|b: int| i < b < j ==> self.windows_disjoint(i as int, b),
                decreases n - j,
            {
                let lo = &self.channels[i];
                let hi = &self.channels[j];
                if !((lo.offset as u128) + window <= hi.offset as u128
                    || (hi.offset as u128) + window <= lo.offset as u128) {
                    assert(!self.windows_disjoint(i as int, j as int));
                    return false;
                }
                j = j + 1;
            }
            i = i + 1;
        }
        true
    }

    /// Decides whether the scalar image is long enough for this layout.
    pub fn scalars_fit_in(&self, len: usize) -> (ok: bool)
        ensures
            ok == self.scalars_fit(len as int),
    {
        (self.active_pulse_offset as u128) + 8 <= len as u128
            && (self.total_pulse_offset as u128) + 8 <= len as u128
            && (self.state_offset as u128) + 8 <= len as u128
    }

    /// Decides whether the waveform image is long enough for this layout.
    pub fn waveforms_fit_in(&self, len: usize) -> (ok: bool)
        ensures
            ok == self.waveforms_fit(len as int),
    {
        let window: u128 = 2 * (self.samples_per_channel as u128);
        let n = self.channels.len();
        let mut i: usize = 0;
        while i < n
            invariant
                n == self.channels@.len(),
                window == self.window_bytes(),
                forall|a: int|
                    0 <= a < i
                        ==> #[trigger] self.channels@[a].offset + self.window_bytes()
                            <= len as int,
            decreases n - i,
        {
            if (self.channels[i].offset as u128) + window > len as u128 {
                return false;
            }
            i = i + 1;
        }
        true
    }
}

} // verus!
