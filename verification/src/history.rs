//! Bounded sliding window of observed ticks and the rate statistics
//! derived from it.
//!
//! The window holds at most `HISTORY_CAPACITY` pairs of a tick number
//! and the wall-clock millisecond at which it was observed, in
//! observation order, the oldest pair evicted first. Rates are
//! reported in micro-hertz (one millionth of an event per second).

use vstd::prelude::*;

verus! {

/// Maximum number of (tick, observation time) pairs kept.
pub const HISTORY_CAPACITY: usize = 120;

/// Sliding window of (tick number, observation time in ms) pairs.
pub struct TickHistory {
    entries: Vec<(u32, u64)>,
}

/// What a bounded append does to the window: push the new pair, and
/// evict the oldest entry once the capacity is exceeded.
pub open spec fn push_bounded(s: Seq<(u32, u64)>, tick: u32, now_ms: u64) -> Seq<(u32, u64)> {
    if s.len() < HISTORY_CAPACITY {
        s.push((tick, now_ms))
    } else {
        s.push((tick, now_ms)).subrange(1, s.len() as int + 1)
    }
}

/// Rate of tick arrival in micro-hertz over a window: the tick span
/// divided by the time span, or exactly zero when fewer than two
/// samples exist, when no time has elapsed, or when the tick counter
/// regressed (a producer restart).
pub open spec fn rate_micro_hz_of(s: Seq<(u32, u64)>) -> int {
    if s.len() < 2 {
        0
    } else {
        let first = s[0];
        let last = s[s.len() - 1];
        if last.1 <= first.1 || last.0 < first.0 {
            0
        } else {
            ((last.0 - first.0) * 1_000_000_000) / (last.1 - first.1)
        }
    }
}

impl TickHistory {
    /// The recorded pairs, oldest first.
    pub closed spec fn view(&self) -> Seq<(u32, u64)> {
        self.entries@
    }

    /// The window never outgrows its capacity.
    pub open spec fn well_formed(&self) -> bool {
        self@.len() <= HISTORY_CAPACITY
    }

    /// Creates an empty window.
    pub fn new() -> (r: TickHistory)
        ensures
            r@ == Seq::<(u32, u64)>::empty(),
            r.well_formed(),
    {
        TickHistory { entries: Vec::new() }
    }

    /// Number of recorded pairs.
    pub fn len(&self) -> (r: usize)
        ensures
            r == self@.len(),
    {
        self.entries.len()
    }

    /// Records one newly observed tick, evicting the oldest entry
    /// when the window is full.
    pub fn record(&mut self, tick: u32, now_ms: u64)
        requires
            old(self).well_formed(),
        ensures
            final(self)@ == push_bounded(old(self)@, tick, now_ms),
            final(self).well_formed(),
    {
        self.entries.push((tick, now_ms));
        if self.entries.len() > HISTORY_CAPACITY {
            self.entries.remove(0);
            assert(self.entries@ =~= push_bounded(old(self)@, tick, now_ms));
        }
    }

    /// Tick arrival rate in micro-hertz; exactly zero when fewer
    /// than two samples exist, so the computation never divides by
    /// zero.
    pub fn thought_rate_micro_hz(&self) -> (r: u64)
        ensures
            r == rate_micro_hz_of(self@),
    {
        if self.entries.len() < 2 {
            return 0;
        }
        let first = self.entries[0];
        let last = self.entries[self.entries.len() - 1];
        if last.1 <= first.1 || last.0 < first.0 {
            return 0;
        }
        let tick_span: u64 = (last.0 - first.0) as u64;
        let time_span: u64 = last.1 - first.1;
        (tick_span * 1_000_000_000) / time_span
    }

    /// Normalized activity in micro-units: the rate measured against
    /// a ten-hertz ceiling, capped at one.
    pub fn neural_activity_micro(&self) -> (r: i64)
        ensures
            r == activity_micro_of(self@),
            0 <= r <= 1_000_000,
    {
        let rate = self.thought_rate_micro_hz();
        let scaled = rate / 10;
        if scaled > 1_000_000 {
            1_000_000
        } else {
            scaled as i64
        }
    }
}

/// Normalized activity in micro-units derived from a window: the
/// micro-hertz rate divided by ten, capped at one unit.
pub open spec fn activity_micro_of(s: Seq<(u32, u64)>) -> int {
    if rate_micro_hz_of(s) / 10 > 1_000_000 {
        1_000_000
    } else {
        rate_micro_hz_of(s) / 10
    }
}

} // verus!
