//! Binary codec for one fixed-layout telemetry record.
//!
//! A record occupies the first 1264 bytes of an 8192-byte ring slot.
//! All multi-byte numbers are little-endian. Scalar fields are stored
//! as single-precision bit patterns and decoded into micro-units (see
//! `fixed`). Decoding is a pure function of the input bytes: the
//! mandatory fields (the first 80 bytes) must be present, while the
//! heatmap, the prediction vector and the hash are filled with zero
//! values when the slice ends before them, so that records written
//! with an older or newer layout still yield their mandatory fields.

use vstd::prelude::*;
use crate::errors::SegmentError;
use crate::fixed::{micro_from_bits, micro_from_f32_bits, MICRO_NAN, MICRO_SAT};

verus! {

/// Number of boolean memory-sector flags in a record.
pub const SECTOR_COUNT: u64 = 64;

/// Number of entries in the semantic heatmap.
pub const HEATMAP_LEN: usize = 256;

/// Number of entries in the prediction vector.
pub const PREDICTION_LEN: usize = 32;

/// Byte offset of the heatmap within a record.
pub const HEATMAP_OFFSET: usize = 80;

/// Byte offset of the prediction vector within a record.
pub const PREDICTION_OFFSET: usize = 1104;

/// Byte offset of the hash within a record.
pub const HASH_OFFSET: usize = 1232;

/// Byte length of the hash field.
pub const HASH_LEN: usize = 32;

/// Minimum record length: every field up to and including the
/// sector bitset must be present.
pub const MIN_RECORD_LEN: usize = 80;

/// Little-endian 32-bit value of four consecutive bytes.
pub open spec fn le_u32_at(s: Seq<u8>, off: int) -> u32
    recommends
        0 <= off,
        off + 4 <= s.len(),
{
    (s[off] + s[off + 1] * 0x100 + s[off + 2] * 0x1_0000 + s[off + 3] * 0x100_0000) as u32
}

/// Little-endian 64-bit value of eight consecutive bytes.
pub open spec fn le_u64_at(s: Seq<u8>, off: int) -> u64
    recommends
        0 <= off,
        off + 8 <= s.len(),
{
    (s[off] + s[off + 1] * 0x100 + s[off + 2] * 0x1_0000 + s[off + 3] * 0x100_0000
        + s[off + 4] * 0x1_0000_0000 + s[off + 5] * 0x100_0000_0000
        + s[off + 6] * 0x1_0000_0000_0000 + s[off + 7] * 0x100_0000_0000_0000) as u64
}

/// Reads a little-endian 32-bit value.
pub fn read_le_u32(data: &[u8], off: usize) -> (r: u32)
    requires
        off + 4 <= data@.len(),
    ensures
        r == le_u32_at(data@, off as int),
{
    (data[off] as u32) + (data[off + 1] as u32) * 0x100 + (data[off + 2] as u32) * 0x1_0000
        + (data[off + 3] as u32) * 0x100_0000
}

/// Reads a little-endian 64-bit value.
pub fn read_le_u64(data: &[u8], off: usize) -> (r: u64)
    requires
        off + 8 <= data@.len(),
    ensures
        r == le_u64_at(data@, off as int),
{
    (data[off] as u64) + (data[off + 1] as u64) * 0x100 + (data[off + 2] as u64) * 0x1_0000
        + (data[off + 3] as u64) * 0x100_0000 + (data[off + 4] as u64) * 0x1_0000_0000
        + (data[off + 5] as u64) * 0x100_0000_0000 + (data[off + 6] as u64) * 0x1_0000_0000_0000
        + (data[off + 7] as u64) * 0x100_0000_0000_0000
}

/// Whether bit `i` of the sector bitset is set; bit 0 maps to
/// sector 0.
pub open spec fn sector_bit(mask: u64, i: int) -> bool
    recommends
        0 <= i < 64,
{
    (mask >> (i as u64)) & 1u64 == 1u64
}

/// Number of set bits among the `n` lowest bits of the mask.
pub open spec fn popcount64_upto(mask: u64, n: nat) -> nat
    decreases n,
{
    if n == 0 {
        0
    } else {
        popcount64_upto(mask, (n - 1) as nat) + (if sector_bit(mask, n - 1) {
            1nat
        } else {
            0nat
        })
    }
}

/// Population count of a 64-bit sector mask.
pub open spec fn popcount64(mask: u64) -> nat {
    popcount64_upto(mask, 64)
}

/// Counts the active sectors of a 64-bit mask.
pub fn count_active_sectors(mask: u64) -> (r: u32)
    ensures
        r == popcount64(mask),
        r <= 64,
{
    let mut count: u32 = 0;
    let mut i: u64 = 0;
    while i < 64
        invariant
            i <= 64,
            count == popcount64_upto(mask, i as nat),
            count <= i,
        decreases 64 - i,
    {
        if (mask >> i) & 1u64 == 1u64 {
            count = count + 1;
        }
        i = i + 1;
    }
    count
}

/// Whether the four-byte entry `i` of an array based at `base` lies
/// fully inside a slice of length `len`.
pub open spec fn entry_present(base: int, len: int, i: int) -> bool {
    base + i * 4 + 4 <= len
}

/// Micro-unit value of heatmap entry `i`, zero when the slice ends
/// before it.
pub open spec fn heatmap_entry(s: Seq<u8>, i: int) -> int {
    if entry_present(80, s.len() as int, i) {
        micro_from_bits(le_u32_at(s, 80 + i * 4))
    } else {
        0
    }
}

/// Micro-unit value of prediction entry `i`, zero when the slice
/// ends before it.
pub open spec fn prediction_entry(s: Seq<u8>, i: int) -> int {
    if entry_present(1104, s.len() as int, i) {
        micro_from_bits(le_u32_at(s, 1104 + i * 4))
    } else {
        0
    }
}

/// Byte sequence with its trailing zero bytes removed.
pub open spec fn trim_trailing_nul(s: Seq<u8>) -> Seq<u8>
    decreases s.len(),
{
    if s.len() > 0 && s[s.len() - 1] == 0 {
        trim_trailing_nul(s.drop_last())
    } else {
        s
    }
}

/// One decoded telemetry record.
///
/// Scalar fields hold micro-unit fixed-point values (see `fixed`);
/// each is the NaN sentinel or bounded by `MICRO_SAT` in magnitude. `heatmap_present` and
/// `prediction_present` say how many leading entries of the
/// respective arrays were actually read from the input; the remaining
/// entries are zero fill. `tensor_hash` holds the raw fingerprint
/// bytes with trailing zero bytes removed, and is empty with
/// `tensor_hash_present == false` when the input ended before it.
#[derive(Debug, Clone, PartialEq, Eq)]
pub struct ConsciousnessState {
    pub tick_number: u32,
    pub timestamp_ms: u64,
    pub mood_valence: i64,
    pub mood_arousal: i64,
    pub mood_dominance: i64,
    pub mood_coherence: i64,
    pub semantic_alignment: i64,
    pub entropy_gradient: i64,
    pub drift_magnitude: i64,
    pub rebloom_intensity: i64,
    pub consciousness_depth: i64,
    pub memory_sectors: Vec<bool>,
    pub semantic_heatmap: Vec<i64>,
    pub prediction_vector: Vec<i64>,
    pub tensor_hash: Vec<u8>,
    pub heatmap_present: usize,
    pub prediction_present: usize,
    pub tensor_hash_present: bool,
}

/// Everything decoding promises about a produced record, stated as a
/// relation between the input bytes and the record.
pub open spec fn decoded_from(st: ConsciousnessState, s: Seq<u8>) -> bool {
    &&& st.tick_number == le_u32_at(s, 0)
    &&& st.timestamp_ms == le_u64_at(s, 4)
    &&& st.mood_valence == micro_from_bits(le_u32_at(s, 12))
    &&& st.mood_arousal == micro_from_bits(le_u32_at(s, 16))
    &&& st.mood_dominance == micro_from_bits(le_u32_at(s, 20))
    &&& st.mood_coherence == micro_from_bits(le_u32_at(s, 24))
    &&& st.semantic_alignment == micro_from_bits(le_u32_at(s, 28))
    &&& st.entropy_gradient == micro_from_bits(le_u32_at(s, 32))
    &&& st.drift_magnitude == micro_from_bits(le_u32_at(s, 36))
    &&& st.rebloom_intensity == micro_from_bits(le_u32_at(s, 40))
    &&& st.consciousness_depth == micro_from_bits(le_u32_at(s, 44))
    &&& st.memory_sectors@.len() == 64
    &&& forall|i: int| 0 <= i < 64 ==> st.memory_sectors@[i] == sector_bit(le_u64_at(s, 72), i)
    &&& st.semantic_heatmap@.len() == 256
    &&& forall|i: int| 0 <= i < 256 ==> st.semantic_heatmap@[i] == #[trigger] heatmap_entry(s, i)
    &&& st.heatmap_present <= 256
    &&& forall|i: int|
        0 <= i < 256 ==> (i < st.heatmap_present <==> #[trigger] entry_present(
            80,
            s.len() as int,
            i,
        ))
    &&& st.prediction_vector@.len() == 32
    &&& forall|i: int| 0 <= i < 32 ==> st.prediction_vector@[i] == #[trigger] prediction_entry(s, i)
    &&& st.prediction_present <= 32
    &&& forall|i: int|
        0 <= i < 32 ==> (i < st.prediction_present <==> #[trigger] entry_present(
            1104,
            s.len() as int,
            i,
        ))
    &&& st.tensor_hash_present == (s.len() >= 1264)
    &&& st.tensor_hash_present ==> st.tensor_hash@ == trim_trailing_nul(s.subrange(1232, 1264))
    &&& !st.tensor_hash_present ==> st.tensor_hash@ == Seq::<u8>::empty()
}

/// Decodes one record from a slice of raw slot bytes.
///
/// Succeeds exactly when the slice holds the 80 mandatory bytes; the
/// optional trailing fields are zero filled when missing. The result
/// is a pure function of the input bytes.
pub fn decode_consciousness_state(data: &[u8]) -> (r: Result<ConsciousnessState, SegmentError>)
    ensures
        r is Ok <==> data@.len() >= 80,
        r matches Err(e) ==> e is TruncatedRecord,
        r matches Ok(st) ==> decoded_from(st, data@),
        r matches Ok(st) ==> record_scalars_bounded(st),
{
    if data.len() < MIN_RECORD_LEN {
        return Err(SegmentError::TruncatedRecord);
    }

    let tick_number = read_le_u32(data, 0);
    let timestamp_ms = read_le_u64(data, 4);
    let mood_valence = micro_from_f32_bits(read_le_u32(data, 12));
    let mood_arousal = micro_from_f32_bits(read_le_u32(data, 16));
    let mood_dominance = micro_from_f32_bits(read_le_u32(data, 20));
    let mood_coherence = micro_from_f32_bits(read_le_u32(data, 24));
    let semantic_alignment = micro_from_f32_bits(read_le_u32(data, 28));
    let entropy_gradient = micro_from_f32_bits(read_le_u32(data, 32));
    let drift_magnitude = micro_from_f32_bits(read_le_u32(data, 36));
    let rebloom_intensity = micro_from_f32_bits(read_le_u32(data, 40));
    let consciousness_depth = micro_from_f32_bits(read_le_u32(data, 44));

    let sector_mask = read_le_u64(data, 72);
    let mut memory_sectors: Vec<bool> = Vec::new();
    let mut i: u64 = 0;
    while i < SECTOR_COUNT
        invariant
            i <= 64,
            memory_sectors@.len() == i,
            forall|k: int| 0 <= k < i ==> memory_sectors@[k] == sector_bit(sector_mask, k),
        decreases 64 - i,
    {
        memory_sectors.push((sector_mask >> i) & 1u64 == 1u64);
        i = i + 1;
    }

    let mut semantic_heatmap: Vec<i64> = Vec::new();
    let mut heatmap_present: usize = 0;
    let mut j: usize = 0;
    while j < HEATMAP_LEN
        invariant
            j <= 256,
            data@.len() >= 80,
            semantic_heatmap@.len() == j,
            forall|k: int| 0 <= k < j ==> semantic_heatmap@[k] == #[trigger] heatmap_entry(data@, k),
            heatmap_present <= j,
            forall|k: int|
                0 <= k < j ==> (k < heatmap_present <==> #[trigger] entry_present(
                    80,
                    data@.len() as int,
                    k,
                )),
        decreases 256 - j,
    {
        let start: usize = HEATMAP_OFFSET + j * 4;
        if start + 4 <= data.len() {
            proof {
                assert(entry_present(80, data@.len() as int, j as int));
                assert forall|k: int| 0 <= k < j implies #[trigger] entry_present(
                    80,
                    data@.len() as int,
                    k,
                ) by {}
                if heatmap_present < j {
                    assert(entry_present(80, data@.len() as int, heatmap_present as int));
                    assert(false);
                }
            }
            semantic_heatmap.push(micro_from_f32_bits(read_le_u32(data, start)));
            heatmap_present = heatmap_present + 1;
        } else {
            assert(!entry_present(80, data@.len() as int, j as int));
            semantic_heatmap.push(0);
        }
        j = j + 1;
    }

    let mut prediction_vector: Vec<i64> = Vec::new();
    let mut prediction_present: usize = 0;
    let mut p: usize = 0;
    while p < PREDICTION_LEN
        invariant
            p <= 32,
            data@.len() >= 80,
            prediction_vector@.len() == p,
            forall|k: int|
                0 <= k < p ==> prediction_vector@[k] == #[trigger] prediction_entry(data@, k),
            prediction_present <= p,
            forall|k: int|
                0 <= k < p ==> (k < prediction_present <==> #[trigger] entry_present(
                    1104,
                    data@.len() as int,
                    k,
                )),
        decreases 32 - p,
    {
        let start: usize = PREDICTION_OFFSET + p * 4;
        if start + 4 <= data.len() {
            proof {
                assert(entry_present(1104, data@.len() as int, p as int));
                assert forall|k: int| 0 <= k < p implies #[trigger] entry_present(
                    1104,
                    data@.len() as int,
                    k,
                ) by {}
                if prediction_present < p {
                    assert(entry_present(1104, data@.len() as int, prediction_present as int));
                    assert(false);
                }
            }
            prediction_vector.push(micro_from_f32_bits(read_le_u32(data, start)));
            prediction_present = prediction_present + 1;
        } else {
            assert(!entry_present(1104, data@.len() as int, p as int));
            prediction_vector.push(0);
        }
        p = p + 1;
    }

    let mut tensor_hash: Vec<u8> = Vec::new();
    let tensor_hash_present = data.len() >= HASH_OFFSET + HASH_LEN;
    if tensor_hash_present {
        let mut k: usize = HASH_OFFSET;
        while k < HASH_OFFSET + HASH_LEN
            invariant
                1232 <= k <= 1264,
                data@.len() >= 1264,
                tensor_hash@ == data@.subrange(1232, k as int),
            decreases 1264 - k,
        {
            tensor_hash.push(data[k]);
            assert(tensor_hash@ =~= data@.subrange(1232, k + 1));
            k = k + 1;
        }
        assert(tensor_hash@ =~= data@.subrange(1232, 1264));
        while tensor_hash.len() > 0 && tensor_hash[tensor_hash.len() - 1] == 0
            invariant
                data@.len() >= 1264,
                trim_trailing_nul(tensor_hash@) == trim_trailing_nul(data@.subrange(1232, 1264)),
            decreases tensor_hash@.len(),
        {
            let ghost before = tensor_hash@;
            tensor_hash.pop();
            assert(tensor_hash@ == before.drop_last());
        }
        assert(tensor_hash@ == trim_trailing_nul(tensor_hash@));
    }

    Ok(ConsciousnessState {
        tick_number,
        timestamp_ms,
        mood_valence,
        mood_arousal,
        mood_dominance,
        mood_coherence,
        semantic_alignment,
        entropy_gradient,
        drift_magnitude,
        rebloom_intensity,
        consciousness_depth,
        memory_sectors,
        semantic_heatmap,
        prediction_vector,
        tensor_hash,
        heatmap_present,
        prediction_present,
        tensor_hash_present,
    })
}

/// Every scalar field of a record is either the NaN sentinel or
/// inside the fixed-point saturation bound.
pub open spec fn scalar_in_range(x: int) -> bool {
    x == MICRO_NAN || -MICRO_SAT <= x <= MICRO_SAT
}

/// All scalar fields of a record stay inside the fixed-point range.
pub open spec fn record_scalars_bounded(st: ConsciousnessState) -> bool {
    &&& scalar_in_range(st.mood_valence as int)
    &&& scalar_in_range(st.mood_arousal as int)
    &&& scalar_in_range(st.mood_dominance as int)
    &&& scalar_in_range(st.mood_coherence as int)
    &&& scalar_in_range(st.semantic_alignment as int)
    &&& scalar_in_range(st.entropy_gradient as int)
    &&& scalar_in_range(st.drift_magnitude as int)
    &&& scalar_in_range(st.rebloom_intensity as int)
    &&& scalar_in_range(st.consciousness_depth as int)
}

/// Decoding is deterministic: the record is a pure function of the
/// input bytes, so equal inputs can only decode to equal records.
#[verifier::rlimit(50)]
pub proof fn lemma_decode_deterministic(
    st1: ConsciousnessState,
    st2: ConsciousnessState,
    s1: Seq<u8>,
    s2: Seq<u8>,
)
    requires
        s1 == s2,
        decoded_from(st1, s1),
        decoded_from(st2, s2),
    ensures
        st1.tick_number == st2.tick_number,
        st1.timestamp_ms == st2.timestamp_ms,
        st1.mood_valence == st2.mood_valence,
        st1.mood_arousal == st2.mood_arousal,
        st1.mood_dominance == st2.mood_dominance,
        st1.mood_coherence == st2.mood_coherence,
        st1.semantic_alignment == st2.semantic_alignment,
        st1.entropy_gradient == st2.entropy_gradient,
        st1.drift_magnitude == st2.drift_magnitude,
        st1.rebloom_intensity == st2.rebloom_intensity,
        st1.consciousness_depth == st2.consciousness_depth,
        st1.memory_sectors@ == st2.memory_sectors@,
        st1.semantic_heatmap@ == st2.semantic_heatmap@,
        st1.prediction_vector@ == st2.prediction_vector@,
        st1.tensor_hash@ == st2.tensor_hash@,
        st1.heatmap_present == st2.heatmap_present,
        st1.prediction_present == st2.prediction_present,
        st1.tensor_hash_present == st2.tensor_hash_present,
{
    assert(st1.memory_sectors@ =~= st2.memory_sectors@);
    assert forall|i: int| 0 <= i < 256 implies st1.semantic_heatmap@[i]
        == st2.semantic_heatmap@[i] by {
        assert(st1.semantic_heatmap@[i] == heatmap_entry(s1, i));
        assert(st2.semantic_heatmap@[i] == heatmap_entry(s2, i));
    }
    assert(st1.semantic_heatmap@ =~= st2.semantic_heatmap@);
    assert forall|i: int| 0 <= i < 32 implies st1.prediction_vector@[i]
        == st2.prediction_vector@[i] by {
        assert(st1.prediction_vector@[i] == prediction_entry(s1, i));
        assert(st2.prediction_vector@[i] == prediction_entry(s2, i));
    }
    assert(st1.prediction_vector@ =~= st2.prediction_vector@);
    if st1.heatmap_present < st2.heatmap_present {
        assert(entry_present(80, s1.len() as int, st1.heatmap_present as int));
        assert(false);
    }
    if st2.heatmap_present < st1.heatmap_present {
        assert(entry_present(80, s1.len() as int, st2.heatmap_present as int));
        assert(false);
    }
    if st1.prediction_present < st2.prediction_present {
        assert(entry_present(1104, s1.len() as int, st1.prediction_present as int));
        assert(false);
    }
    if st2.prediction_present < st1.prediction_present {
        assert(entry_present(1104, s1.len() as int, st2.prediction_present as int));
        assert(false);
    }
}

/// A vector of sector flags that agrees pointwise with a mask has
/// exactly the mask's population count of set flags.
pub open spec fn count_true_upto(s: Seq<bool>, n: nat) -> nat
    decreases n,
{
    if n == 0 {
        0
    } else {
        count_true_upto(s, (n - 1) as nat) + (if s[n - 1] {
            1nat
        } else {
            0nat
        })
    }
}

/// Number of `true` entries of a boolean sequence.
pub open spec fn count_true(s: Seq<bool>) -> nat {
    count_true_upto(s, s.len())
}

/// No more flags can be set than there are flags.
pub proof fn lemma_count_true_bound(s: Seq<bool>)
    ensures
        count_true(s) <= s.len(),
{
    lemma_count_true_upto_bound(s, s.len());
}

proof fn lemma_count_true_upto_bound(s: Seq<bool>, n: nat)
    ensures
        count_true_upto(s, n) <= n,
    decreases n,
{
    if n > 0 {
        lemma_count_true_upto_bound(s, (n - 1) as nat);
    }
}

/// The number of set sector flags decoded from a mask equals the
/// mask's population count, and flag 0 reflects bit 0 exactly.
pub proof fn lemma_sector_flags_match_popcount(s: Seq<bool>, mask: u64)
    requires
        s.len() == 64,
        forall|i: int| 0 <= i < 64 ==> s[i] == sector_bit(mask, i),
    ensures
        count_true(s) == popcount64(mask),
        s[0] == ((mask >> 0u64) & 1u64 == 1u64),
{
    assert forall|n: nat| n <= 64 implies count_true_upto(s, n) == popcount64_upto(mask, n) by {
        lemma_count_true_popcount_upto(s, mask, n);
    }
}

/// End to end over the raw bytes: however many flags a decoded
/// record carries set, their number is exactly the population count
/// of the 64-bit sector mask stored in the record.
pub proof fn lemma_decoded_sigils_match_mask(st: ConsciousnessState, s: Seq<u8>)
    requires
        decoded_from(st, s),
    ensures
        count_true(st.memory_sectors@) == popcount64(le_u64_at(s, 72)),
        st.memory_sectors@[0] == sector_bit(le_u64_at(s, 72), 0),
{
    lemma_sector_flags_match_popcount(st.memory_sectors@, le_u64_at(s, 72));
}

proof fn lemma_count_true_popcount_upto(s: Seq<bool>, mask: u64, n: nat)
    requires
        s.len() == 64,
        n <= 64,
        forall|i: int| 0 <= i < 64 ==> s[i] == sector_bit(mask, i),
    ensures
        count_true_upto(s, n) == popcount64_upto(mask, n),
    decreases n,
{
    if n > 0 {
        lemma_count_true_popcount_upto(s, mask, (n - 1) as nat);
    }
}

} // verus!
