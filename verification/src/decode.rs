//! Little-endian decoding of the register image.
//!
//! Every tick re-reads the same fixed offsets of a byte-addressable register
//! image: 8-byte little-endian words for the scalar registers and arrays of
//! 2-byte little-endian samples for the waveform channels.

use vstd::prelude::*;

verus! {

/// The value of a byte string read as one little-endian integer.
pub open spec fn le_value(bytes: Seq<u8>) -> int
    decreases bytes.len(),
{
    if bytes.len() == 0 {
        0
    } else {
        bytes[0] + 256 * le_value(bytes.drop_first())
    }
}

/// 256 to the power `n`: the number of values `n` bytes can hold.
pub open spec fn pow256(n: nat) -> int
    decreases n,
{
    if n == 0 {
        1
    } else {
        256 * pow256((n - 1) as nat)
    }
}

/// Every byte string can hold at least one value.
pub proof fn lemma_pow256_positive(n: nat)
    ensures
        pow256(n) >= 1,
    decreases n,
{
    if n > 0 {
        lemma_pow256_positive((n - 1) as nat);
    }
}

/// Larger byte strings can hold no smaller a range.
pub proof fn lemma_pow256_increases(m: nat, n: nat)
    requires
        m <= n,
    ensures
        pow256(m) <= pow256(n),
    decreases n,
{
    lemma_pow256_positive(m);
    if m < n {
        lemma_pow256_increases(m, (n - 1) as nat);
    }
}

/// The scalar register word that starts at `offset`.
pub open spec fn spec_scalar_at(image: Seq<u8>, offset: int) -> int {
    le_value(image.subrange(offset, offset + 8))
}

/// Sample `i` of the waveform window that starts at `offset`.
pub open spec fn spec_sample_at(image: Seq<u8>, offset: int, i: int) -> int {
    le_value(image.subrange(offset + 2 * i, offset + 2 * i + 2))
}

/// The whole waveform window that starts at `offset`: `samples` 16-bit
/// values.
pub open spec fn spec_waveform_at(image: Seq<u8>, offset: int, samples: int) -> Seq<u16> {
    Seq::new(samples as nat, |i: int| spec_sample_at(image, offset, i) as u16)
}

/// Reads the 8-byte little-endian scalar register at `offset`.
pub fn read_register_offset(image: &[u8], offset: usize) -> (value: u64)
    requires
        offset + 8 <= image@.len(),
    ensures
        value == spec_scalar_at(image@, offset as int),
{
    let end = image.len();
    let mut value: u64 = 0;
    let mut k: usize = 8;
    while k > 0
        invariant
            k <= 8,
            end == image@.len(),
            offset + 8 <= end,
            value == le_value(image@.subrange(offset + k, offset as int + 8)),
            value < pow256((8 - k) as nat),
        decreases k,
    {
        proof {
            reveal_with_fuel(pow256, 9);
            lemma_pow256_increases((8 - k) as nat, 7);
            let tail = image@.subrange(offset + k, offset as int + 8);
            let whole = image@.subrange(offset + k - 1, offset as int + 8);
            assert(whole.drop_first() =~= tail);
            assert(whole[0] == image@[offset + k - 1]);
        }
        k = k - 1;
        value = value * 256 + (image[offset + k] as u64);
    }
    proof {
        assert(image@.subrange(offset as int, offset as int + 8)
            =~= image@.subrange(offset + 0, offset as int + 8));
    }
    value
}

/// Reads the 2-byte little-endian sample at `offset`.
pub fn read_sample_offset(image: &[u8], offset: usize) -> (value: u16)
    requires
        offset + 2 <= image@.len(),
    ensures
        value == le_value(image@.subrange(offset as int, offset as int + 2)),
{
    let lo = image[offset];
    let hi = image[offset + 1];
    proof {
        reveal_with_fuel(le_value, 4);
        let pair = image@.subrange(offset as int, offset as int + 2);
        assert(pair.drop_first() =~= image@.subrange(offset as int + 1, offset as int + 2));
        assert(pair.drop_first().drop_first() =~= Seq::<u8>::empty());
        assert(pair[0] == image@[offset as int]);
        assert(pair.drop_first()[0] == image@[offset as int + 1]);
    }
    (lo as u16) + 256 * (hi as u16)
}

/// Reads the waveform window that starts at `offset`: `samples` consecutive
/// little-endian 16-bit values.
pub fn read_array_offset(image: &[u8], offset: usize, samples: usize) -> (wave: Vec<u16>)
    requires
        offset + 2 * samples <= image@.len(),
    ensures
        wave@ == spec_waveform_at(image@, offset as int, samples as int),
{
    let end = image.len();
    let mut wave: Vec<u16> = Vec::new();
    let mut i: usize = 0;
    while i < samples
        invariant
            i <= samples,
            end == image@.len(),
            offset + 2 * samples <= end,
            wave@.len() == i,
            forall|a: int|
                0 <= a < i
                    ==> wave@[a] == #[trigger] spec_sample_at(image@, offset as int, a) as u16,
        decreases samples - i,
    {
        let value = read_sample_offset(image, offset + 2 * i);
        wave.push(value);
        i = i + 1;
    }
    proof {
        assert(wave@ =~= spec_waveform_at(image@, offset as int, samples as int));
    }
    wave
}

} // verus!
