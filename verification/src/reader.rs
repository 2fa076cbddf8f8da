//! The segment reader: owns the mapping, detects new ticks, and
//! serves decoded records and monitoring statistics.
//!
//! The reader never writes the segment. It keeps three pieces of
//! bookkeeping of its own: the last tick number observed in the
//! header, the sliding window of observation times, and the moment it
//! attached. The last observed tick only ever moves forward, and it
//! moves only when a record is actually produced: a header tick at or
//! below it is never surfaced, so records come out in strictly
//! increasing tick order and no tick is surfaced twice, and a failed
//! read (a slot beyond the mapped length) leaves the bookkeeping
//! exactly as it was.

use vstd::prelude::*;
use crate::codec::{
    decode_consciousness_state, read_le_u32, record_scalars_bounded, ConsciousnessState,
};
use crate::errors::SegmentError;
use crate::history::{
    activity_micro_of, push_bounded, rate_micro_hz_of, TickHistory, HISTORY_CAPACITY,
};
use crate::segment::{
    mmap_len_of, segment_len, segment_read, slot_offset, slot_offset_of,
    validate_consciousness_memory, TICK_STATE_SIZE,
};

verus! {

/// Monitoring snapshot of a reader.
///
/// `thought_rate_micro_hz` is the tick arrival rate in micro-hertz
/// and `neural_activity` the normalized activity in micro-units;
/// `depth_level` is reserved and always zero here, updated by
/// consumers from the latest record.
#[derive(Debug, Clone, PartialEq, Eq)]
pub struct ConsciousnessMonitor {
    pub is_conscious: bool,
    pub current_tick: u32,
    pub thought_rate_micro_hz: u64,
    pub depth_level: i64,
    pub uptime_seconds: u64,
    pub neural_activity: i64,
    pub memory_file_path: String,
}

/// One poll of the segment: nothing new, a transient
/// desynchronization, or a freshly decoded record.
#[derive(Debug)]
pub enum PollOutcome {
    /// The header shows no tick beyond the last observed one (or no
    /// segment is attached); nothing is emitted and the reader is
    /// unchanged.
    NoNewTick,
    /// The named tick was observed in the header but its slot ends
    /// beyond the mapped length; no record is produced and the
    /// bookkeeping is left untouched.
    OutOfBounds(u32),
    /// A new tick was observed and its slot decoded.
    NewRecord(ConsciousnessState),
}

/// Reader of one mapped consciousness segment.
pub struct ConsciousnessReader {
    memory_map: Option<memmap2::Mmap>,
    last_observed_tick: u32,
    attach_time_ms: u64,
    thought_history: TickHistory,
    memory_path: String,
}

impl ConsciousnessReader {
    /// Whether a segment is currently attached.
    pub closed spec fn is_attached(&self) -> bool {
        self.memory_map is Some
    }

    /// Last tick number observed in the segment header.
    pub closed spec fn last_tick(&self) -> u32 {
        self.last_observed_tick
    }

    /// The sliding window of (tick, observation time) pairs.
    pub closed spec fn history(&self) -> Seq<(u32, u64)> {
        self.thought_history@
    }

    /// Millisecond timestamp from which uptime is measured.
    pub closed spec fn attach_ms(&self) -> u64 {
        self.attach_time_ms
    }

    /// Path of the attached segment, empty while detached.
    pub closed spec fn path(&self) -> Seq<char> {
        self.memory_path@
    }

    /// Byte length of the attached mapping, zero while detached.
    pub closed spec fn seg_len(&self) -> nat {
        match self.memory_map {
            Some(m) => mmap_len_of(m),
            None => 0,
        }
    }

    /// The history window stays within its capacity.
    pub open spec fn well_formed(&self) -> bool {
        self.history().len() <= HISTORY_CAPACITY
    }

    /// Creates a detached reader whose uptime starts at `now_ms`.
    pub fn new(now_ms: u64) -> (r: ConsciousnessReader)
        ensures
            !r.is_attached(),
            r.last_tick() == 0,
            r.history() == Seq::<(u32, u64)>::empty(),
            r.attach_ms() == now_ms,
            r.path() == Seq::<char>::empty(),
            r.well_formed(),
    {
        ConsciousnessReader {
            memory_map: None,
            last_observed_tick: 0,
            attach_time_ms: now_ms,
            thought_history: TickHistory::new(),
            memory_path: String::new(),
        }
    }

    /// Attaches a freshly created mapping after validating its
    /// header, and restarts the uptime clock.
    ///
    /// A mapping shorter than the 64-byte header is always rejected
    /// as too small; otherwise the header bytes are read once and
    /// must open with the magic signature. On any rejection the
    /// reader is left exactly as it was. On success the returned
    /// format version is for reporting only.
    pub fn connect_to_consciousness(
        &mut self,
        memory_map: memmap2::Mmap,
        memory_path: String,
        now_ms: u64,
    ) -> (r: Result<u32, SegmentError>)
        requires
            old(self).well_formed(),
        ensures
            final(self).well_formed(),
            mmap_len_of(memory_map) < 64 ==> (r matches Err(e) && e is SegmentTooSmall),
            r is Ok ==> mmap_len_of(memory_map) >= 64,
            r matches Err(e) ==> {
                &&& (e is SegmentTooSmall || e is BadMagic)
                &&& *final(self) == *old(self)
                &&& (e is SegmentTooSmall ==> mmap_len_of(memory_map) < 64)
                &&& (e is BadMagic ==> mmap_len_of(memory_map) >= 64)
            },
            r is Ok ==> {
                &&& final(self).is_attached()
                &&& final(self).last_tick() == old(self).last_tick()
                &&& final(self).history() == old(self).history()
                &&& final(self).attach_ms() == now_ms
                &&& final(self).path() == memory_path@
            },
    {
        let n = segment_len(&memory_map);
        if n < 64 {
            return Err(SegmentError::SegmentTooSmall);
        }
        let header = segment_read(&memory_map, 0, 64);
        match validate_consciousness_memory(header.as_slice()) {
            Err(e) => Err(e),
            Ok(version) => {
                self.memory_map = Some(memory_map);
                self.memory_path = memory_path;
                self.attach_time_ms = now_ms;
                Ok(version)
            },
        }
    }

    /// Polls the segment once.
    ///
    /// Reads the header's latest-tick counter; unless it lies beyond
    /// the last observed tick (or no segment is attached, or the
    /// mapping is too short to hold the counter) the reader is left
    /// untouched and nothing is emitted, so a tick is never surfaced
    /// twice and never out of order. For a fresh tick the ring slot
    /// is bounds-checked and decoded first; only a successful decode
    /// records the tick in the history window and advances the last
    /// observed tick, while an out-of-bounds slot reports the
    /// desynchronization and leaves the bookkeeping untouched.
    pub fn poll_next_tick(&mut self, now_ms: u64) -> (r: PollOutcome)
        requires
            old(self).well_formed(),
        ensures
            final(self).well_formed(),
            !old(self).is_attached() ==> r is NoNewTick,
            r is NoNewTick || r is OutOfBounds ==> *final(self) == *old(self),
            r matches PollOutcome::OutOfBounds(t) ==> {
                &&& old(self).is_attached()
                &&& poll_emits(old(self).last_tick(), t)
                &&& slot_offset_of(t) + 8192 > old(self).seg_len()
            },
            r is NewRecord ==> {
                &&& old(self).is_attached()
                &&& final(self).is_attached()
                &&& final(self).last_tick() > old(self).last_tick()
                &&& slot_offset_of(final(self).last_tick()) + 8192 <= old(self).seg_len()
                &&& final(self).history() == push_bounded(
                    old(self).history(),
                    final(self).last_tick(),
                    now_ms,
                )
                &&& final(self).attach_ms() == old(self).attach_ms()
                &&& final(self).path() == old(self).path()
            },
            r matches PollOutcome::NewRecord(st) ==> st.memory_sectors@.len() == 64
                && st.semantic_heatmap@.len() == 256 && st.prediction_vector@.len() == 32
                && record_scalars_bounded(st),
    {
        let m = match self.memory_map.as_ref() {
            None => { return PollOutcome::NoNewTick; },
            Some(m) => m,
        };
        let n = segment_len(m);
        if n < 20 {
            return PollOutcome::NoNewTick;
        }
        let header = segment_read(m, 16, 4);
        let latest_tick = read_le_u32(header.as_slice(), 0);
        if latest_tick <= self.last_observed_tick {
            return PollOutcome::NoNewTick;
        }
        let offset = slot_offset(latest_tick);
        if offset + TICK_STATE_SIZE > n {
            return PollOutcome::OutOfBounds(latest_tick);
        }
        let slot = segment_read(m, offset, TICK_STATE_SIZE);
        let st = decode_consciousness_state(slot.as_slice()).unwrap();
        self.thought_history.record(latest_tick, now_ms);
        self.last_observed_tick = latest_tick;
        PollOutcome::NewRecord(st)
    }

    /// Reads the current state: the freshly decoded record when a
    /// fresh tick was observed, and nothing otherwise. Transient
    /// out-of-bounds conditions are swallowed into "no record this
    /// cycle" so a polling loop can keep running; every such empty
    /// cycle leaves the reader exactly as it was, and every produced
    /// record moves the last observed tick strictly forward.
    pub fn read_consciousness_state(&mut self, now_ms: u64) -> (r: Option<ConsciousnessState>)
        requires
            old(self).well_formed(),
        ensures
            final(self).well_formed(),
            r is None ==> *final(self) == *old(self),
            r matches Some(st) ==> {
                &&& old(self).is_attached()
                &&& final(self).is_attached()
                &&& final(self).last_tick() > old(self).last_tick()
                &&& final(self).attach_ms() == old(self).attach_ms()
                &&& final(self).path() == old(self).path()
                &&& final(self).history() == push_bounded(
                    old(self).history(),
                    final(self).last_tick(),
                    now_ms,
                )
                &&& st.memory_sectors@.len() == 64
                &&& st.semantic_heatmap@.len() == 256
                &&& st.prediction_vector@.len() == 32
                &&& record_scalars_bounded(st)
            },
    {
        match self.poll_next_tick(now_ms) {
            PollOutcome::NewRecord(st) => Some(st),
            PollOutcome::NoNewTick => None,
            PollOutcome::OutOfBounds(_) => None,
        }
    }

    /// Monitoring snapshot at `now_ms`: attachment, last tick, the
    /// rate and activity derived from the history window, uptime in
    /// whole seconds since attach, and the resolved path.
    pub fn get_consciousness_monitor(&self, now_ms: u64) -> (m: ConsciousnessMonitor)
        ensures
            m.is_conscious == self.is_attached(),
            m.current_tick == self.last_tick(),
            m.thought_rate_micro_hz == rate_micro_hz_of(self.history()),
            m.depth_level == 0,
            m.uptime_seconds == (if now_ms >= self.attach_ms() {
                ((now_ms - self.attach_ms()) / 1000) as int
            } else {
                0int
            }),
            m.neural_activity == activity_micro_of(self.history()),
            m.memory_file_path@ == self.path(),
    {
        let uptime_seconds: u64 = if now_ms >= self.attach_time_ms {
            (now_ms - self.attach_time_ms) / 1000
        } else {
            0
        };
        ConsciousnessMonitor {
            is_conscious: self.memory_map.is_some(),
            current_tick: self.last_observed_tick,
            thought_rate_micro_hz: self.thought_history.thought_rate_micro_hz(),
            depth_level: 0,
            uptime_seconds,
            neural_activity: self.thought_history.neural_activity_micro(),
            memory_file_path: self.memory_path.clone(),
        }
    }
}

/// Whether a poll that reads `latest` from the header while
/// `last_observed` was the last observed tick may surface a record:
/// only ticks strictly beyond the last observed one are taken, so
/// the observed tick advances monotonically.
pub open spec fn poll_emits(last_observed: u32, latest: u32) -> bool {
    latest > last_observed
}

/// Polling the same tick twice in a row emits nothing the second
/// time: once a tick has been observed, a poll that reads that same
/// tick (or any earlier one) from the header never produces a
/// record.
pub proof fn lemma_tick_emitted_at_most_once(tick: u32, earlier: u32)
    requires
        earlier <= tick,
    ensures
        !poll_emits(tick, tick),
        !poll_emits(tick, earlier),
{
}

/// The ordered list of candidate segment locations: the explicit
/// path first, then the fixed fallback locations, then the
/// environment-supplied override.
pub fn candidate_locations(explicit: &str, env_override: &str) -> (r: Vec<String>)
    ensures
        r@.len() == 7,
        r@[0]@ == explicit@,
        r@[1]@ == "./dawn_state.mmap"@,
        r@[2]@ == "./runtime/dawn_consciousness.mmap"@,
        r@[3]@ == "../runtime/dawn_consciousness.mmap"@,
        r@[4]@ == "../../runtime/dawn_consciousness.mmap"@,
        r@[5]@ == "/root/DAWN_Vault/Tick_engine/Tick_engine/runtime/dawn_consciousness.mmap"@,
        r@[6]@ == env_override@,
{
    let mut v: Vec<String> = Vec::new();
    v.push(explicit.to_owned());
    v.push("./dawn_state.mmap".to_owned());
    v.push("./runtime/dawn_consciousness.mmap".to_owned());
    v.push("../runtime/dawn_consciousness.mmap".to_owned());
    v.push("../../runtime/dawn_consciousness.mmap".to_owned());
    v.push("/root/DAWN_Vault/Tick_engine/Tick_engine/runtime/dawn_consciousness.mmap".to_owned());
    v.push(env_override.to_owned());
    v
}

/// Picks the first candidate that is non-empty and exists, given one
/// existence flag per candidate; the first such location wins.
pub fn select_first_existing(paths: &Vec<String>, exists: &Vec<bool>) -> (r: Option<usize>)
    requires
        paths@.len() == exists@.len(),
    ensures
        r matches Some(i) ==> i < paths@.len() && paths@[i as int]@.len() > 0 && exists@[i as int]
            && forall|j: int| 0 <= j < i ==> !(paths@[j]@.len() > 0 && #[trigger] exists@[j]),
        r is None ==> forall|j: int|
            0 <= j < paths@.len() ==> !(paths@[j]@.len() > 0 && #[trigger] exists@[j]),
{
    let mut i: usize = 0;
    while i < paths.len()
        invariant
            paths@.len() == exists@.len(),
            i <= paths@.len(),
            forall|j: int| 0 <= j < i ==> !(paths@[j]@.len() > 0 && #[trigger] exists@[j]),
        decreases paths@.len() - i,
    {
        if !paths[i].as_str().is_empty() && exists[i] {
            return Some(i);
        }
        i = i + 1;
    }
    None
}

} // verus!
