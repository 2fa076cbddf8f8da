//! Derivation of presentation state from a decoded record.
//!
//! Pure rules mapping raw telemetry fields, in micro-units, onto a
//! mood label, a clamped entropy and heat, a composite score and a
//! severity zone. Thresholds are the micro-unit forms of the rules'
//! decimal constants (0.7 becomes 700_000, a score of 80 becomes
//! 80_000_000). A NaN field satisfies no threshold (see `fixed`), so
//! it falls through to each rule's default, and NaN propagates
//! through the score and the clamps as it would through float
//! arithmetic.

use vstd::prelude::*;
use crate::codec::{count_true, count_true_upto, ConsciousnessState};
use crate::fixed::{
    clamp_unit_micro, clamp_unit_of, gt_micro, lt_micro, micro_gt, micro_lt, MICRO_NAN,
    MICRO_UNIT,
};
use crate::reader::ConsciousnessReader;

verus! {

/// Mood label of one record, ordered here as the classification
/// rules try them.
#[derive(Debug, Clone, Copy, PartialEq, Eq, Structural)]
pub enum Mood {
    Calm,
    Excited,
    Focused,
    Confident,
    Anxious,
    Contemplative,
    Energetic,
    Chaotic,
    Neutral,
}

impl Mood {
    /// Upper-case label of this mood, as published to consumers.
    pub fn label(&self) -> (r: &'static str)
        ensures
            *self is Calm ==> r@ == "CALM"@,
            *self is Excited ==> r@ == "EXCITED"@,
            *self is Focused ==> r@ == "FOCUSED"@,
            *self is Confident ==> r@ == "CONFIDENT"@,
            *self is Anxious ==> r@ == "ANXIOUS"@,
            *self is Contemplative ==> r@ == "CONTEMPLATIVE"@,
            *self is Energetic ==> r@ == "ENERGETIC"@,
            *self is Chaotic ==> r@ == "CHAOTIC"@,
            *self is Neutral ==> r@ == "NEUTRAL"@,
    {
        match self {
            Mood::Calm => "CALM",
            Mood::Excited => "EXCITED",
            Mood::Focused => "FOCUSED",
            Mood::Confident => "CONFIDENT",
            Mood::Anxious => "ANXIOUS",
            Mood::Contemplative => "CONTEMPLATIVE",
            Mood::Energetic => "ENERGETIC",
            Mood::Chaotic => "CHAOTIC",
            Mood::Neutral => "NEUTRAL",
        }
    }
}

/// Severity zone of one record, most severe first.
#[derive(Debug, Clone, Copy, PartialEq, Eq, Structural)]
pub enum Zone {
    Critical,
    Warning,
    Elevated,
    Stable,
}

impl Zone {
    /// Upper-case label of this zone, as published to consumers.
    pub fn label(&self) -> (r: &'static str)
        ensures
            *self is Critical ==> r@ == "CRITICAL"@,
            *self is Warning ==> r@ == "WARNING"@,
            *self is Elevated ==> r@ == "ELEVATED"@,
            *self is Stable ==> r@ == "STABLE"@,
    {
        match self {
            Zone::Critical => "CRITICAL",
            Zone::Warning => "WARNING",
            Zone::Elevated => "ELEVATED",
            Zone::Stable => "STABLE",
        }
    }
}

/// Mood classification over micro-unit fields: tried in a fixed
/// order, first match wins, highest coherence band first.
pub open spec fn mood_of(valence: int, arousal: int, dominance: int, coherence: int) -> Mood {
    if micro_gt(coherence, 700_000) && micro_gt(valence, 300_000) && micro_lt(arousal, 400_000) {
        Mood::Calm
    } else if micro_gt(coherence, 700_000) && micro_gt(valence, 500_000) && micro_gt(
        arousal,
        600_000,
    ) {
        Mood::Excited
    } else if micro_gt(coherence, 700_000) && micro_lt(valence, -300_000) && micro_gt(
        arousal,
        600_000,
    ) {
        Mood::Focused
    } else if micro_gt(coherence, 700_000) && micro_gt(valence, 0) && micro_gt(
        dominance,
        600_000,
    ) {
        Mood::Confident
    } else if micro_gt(coherence, 400_000) && micro_lt(valence, -400_000) && micro_gt(
        arousal,
        500_000,
    ) {
        Mood::Anxious
    } else if micro_gt(coherence, 400_000) && micro_lt(valence, -200_000) && micro_lt(
        arousal,
        400_000,
    ) {
        Mood::Contemplative
    } else if micro_gt(coherence, 400_000) && micro_gt(arousal, 700_000) {
        Mood::Energetic
    } else if micro_lt(coherence, 300_000) || micro_gt(arousal, 800_000) {
        Mood::Chaotic
    } else {
        Mood::Neutral
    }
}

/// Classifies a mood from the emotional quadrant fields, given in
/// micro-units.
pub fn determine_mood(valence: i64, arousal: i64, dominance: i64, coherence: i64) -> (m: Mood)
    ensures
        m == mood_of(valence as int, arousal as int, dominance as int, coherence as int),
{
    if gt_micro(coherence, 700_000) {
        if gt_micro(valence, 300_000) && lt_micro(arousal, 400_000) {
            return Mood::Calm;
        } else if gt_micro(valence, 500_000) && gt_micro(arousal, 600_000) {
            return Mood::Excited;
        } else if lt_micro(valence, -300_000) && gt_micro(arousal, 600_000) {
            return Mood::Focused;
        } else if gt_micro(valence, 0) && gt_micro(dominance, 600_000) {
            return Mood::Confident;
        }
    }
    if gt_micro(coherence, 400_000) {
        if lt_micro(valence, -400_000) && gt_micro(arousal, 500_000) {
            return Mood::Anxious;
        } else if lt_micro(valence, -200_000) && lt_micro(arousal, 400_000) {
            return Mood::Contemplative;
        } else if gt_micro(arousal, 700_000) {
            return Mood::Energetic;
        }
    }
    if lt_micro(coherence, 300_000) || gt_micro(arousal, 800_000) {
        return Mood::Chaotic;
    }
    Mood::Neutral
}

/// Composite score in micro-units of the 0 to 100 scale: fifty times
/// the semantic alignment plus thirty times the consciousness depth,
/// clamped into the scale; a NaN input makes the score NaN, as float
/// arithmetic would.
pub open spec fn scup_of(alignment: int, depth: int) -> int {
    if alignment == MICRO_NAN || depth == MICRO_NAN {
        MICRO_NAN as int
    } else if alignment * 50 + depth * 30 < 0 {
        0
    } else if alignment * 50 + depth * 30 > 100_000_000 {
        100_000_000
    } else {
        alignment * 50 + depth * 30
    }
}

/// Computes the composite score; for every non-NaN input pair the
/// result stays inside the scale, negative sums included.
pub fn compute_scup(alignment: i64, depth: i64) -> (r: i64)
    ensures
        r == scup_of(alignment as int, depth as int),
        r == MICRO_NAN || 0 <= r <= 100_000_000,
{
    if alignment == MICRO_NAN || depth == MICRO_NAN {
        return MICRO_NAN;
    }
    let wide: i128 = (alignment as i128) * 50 + (depth as i128) * 30;
    if wide < 0 {
        0
    } else if wide > 100_000_000 {
        100_000_000
    } else {
        wide as i64
    }
}

/// Zone classification over micro-unit entropy and heat and a
/// micro-unit composite score, most severe band first; NaN metrics
/// trigger no band.
pub open spec fn zone_of(entropy: int, scup: int, heat: int) -> Zone {
    if micro_gt(entropy, 800_000) || micro_gt(scup, 80_000_000) || micro_gt(heat, 900_000) {
        Zone::Critical
    } else if micro_gt(entropy, 600_000) || micro_gt(scup, 60_000_000) || micro_gt(
        heat,
        700_000,
    ) {
        Zone::Warning
    } else if micro_gt(entropy, 400_000) || micro_gt(scup, 40_000_000) || micro_gt(
        heat,
        500_000,
    ) {
        Zone::Elevated
    } else {
        Zone::Stable
    }
}

/// Classifies the severity zone from clamped entropy, composite
/// score and clamped heat.
pub fn determine_consciousness_zone(entropy: i64, scup: i64, heat: i64) -> (z: Zone)
    ensures
        z == zone_of(entropy as int, scup as int, heat as int),
{
    if gt_micro(entropy, 800_000) || gt_micro(scup, 80_000_000) || gt_micro(heat, 900_000) {
        Zone::Critical
    } else if gt_micro(entropy, 600_000) || gt_micro(scup, 60_000_000) || gt_micro(heat, 700_000) {
        Zone::Warning
    } else if gt_micro(entropy, 400_000) || gt_micro(scup, 40_000_000) || gt_micro(heat, 500_000) {
        Zone::Elevated
    } else {
        Zone::Stable
    }
}

/// An entropy beyond the critical threshold forces the critical
/// zone, whatever the other metrics say.
pub proof fn lemma_high_entropy_is_critical(entropy: int, scup: int, heat: int)
    requires
        micro_gt(entropy, 800_000),
    ensures
        zone_of(entropy, scup, heat) == Zone::Critical,
{
}

/// Presentation state published once per newly observed tick.
///
/// Scalar fields are micro-unit fixed point: `entropy` and the value
/// inside `heat` lie in the unit interval scaled by `MICRO_UNIT`, and
/// `scup` lies in the 0 to 100 scale scaled likewise; any of the
/// three is the NaN sentinel when the underlying record field was a
/// NaN bit pattern.
#[derive(Debug, Clone, PartialEq, Eq)]
pub struct DawnState {
    pub tick_number: u32,
    pub mood: Mood,
    pub entropy: i64,
    pub scup: i64,
    pub heat: Option<i64>,
    pub zone: Option<Zone>,
    pub sigils: Option<u32>,
}

/// Maps one decoded record onto the presentation state: classified
/// mood, clamped entropy and heat, composite score, severity zone and
/// the count of active memory sectors.
pub fn map_consciousness_to_dawn_state(consciousness: &ConsciousnessState) -> (d: DawnState)
    requires
        consciousness.memory_sectors@.len() == 64,
    ensures
        d.tick_number == consciousness.tick_number,
        d.mood == mood_of(
            consciousness.mood_valence as int,
            consciousness.mood_arousal as int,
            consciousness.mood_dominance as int,
            consciousness.mood_coherence as int,
        ),
        d.entropy == clamp_unit_of(consciousness.entropy_gradient as int),
        d.scup == scup_of(
            consciousness.semantic_alignment as int,
            consciousness.consciousness_depth as int,
        ),
        d.heat matches Some(h) && h == clamp_unit_of(consciousness.drift_magnitude as int),
        d.zone matches Some(z) && z == zone_of(
            d.entropy as int,
            d.scup as int,
            clamp_unit_of(consciousness.drift_magnitude as int),
        ),
        d.sigils matches Some(n) && n == count_true(consciousness.memory_sectors@),
{
    let mood = determine_mood(
        consciousness.mood_valence,
        consciousness.mood_arousal,
        consciousness.mood_dominance,
        consciousness.mood_coherence,
    );
    let entropy = clamp_unit_micro(consciousness.entropy_gradient);
    let scup = compute_scup(consciousness.semantic_alignment, consciousness.consciousness_depth);
    let heat = clamp_unit_micro(consciousness.drift_magnitude);
    let zone = determine_consciousness_zone(entropy, scup, heat);

    let mut sigils: u32 = 0;
    let mut i: usize = 0;
    while i < consciousness.memory_sectors.len()
        invariant
            consciousness.memory_sectors@.len() == 64,
            i <= 64,
            sigils == count_true_upto(consciousness.memory_sectors@, i as nat),
            sigils <= i,
        decreases 64 - i,
    {
        if consciousness.memory_sectors[i] {
            sigils = sigils + 1;
        }
        i = i + 1;
    }

    DawnState {
        tick_number: consciousness.tick_number,
        mood,
        entropy,
        scup,
        heat: Some(heat),
        zone: Some(zone),
        sigils: Some(sigils),
    }
}

/// The publish decision of the bridge loop, after a record has been
/// read: a state is published exactly when the record's tick exceeds
/// the last published one, so published ticks strictly increase and
/// no tick is ever re-published; the published state is the record's
/// derivation, field for field.
pub fn publish_decision(record: &ConsciousnessState, last_tick: u32) -> (r: Option<DawnState>)
    requires
        record.memory_sectors@.len() == 64,
    ensures
        r is Some <==> record.tick_number > last_tick,
        r matches Some(d) ==> {
            &&& d.tick_number == record.tick_number
            &&& d.mood == mood_of(
                record.mood_valence as int,
                record.mood_arousal as int,
                record.mood_dominance as int,
                record.mood_coherence as int,
            )
            &&& d.entropy == clamp_unit_of(record.entropy_gradient as int)
            &&& d.scup == scup_of(
                record.semantic_alignment as int,
                record.consciousness_depth as int,
            )
            &&& d.heat matches Some(h) && h == clamp_unit_of(record.drift_magnitude as int)
            &&& d.zone matches Some(z) && z == zone_of(
                d.entropy as int,
                d.scup as int,
                clamp_unit_of(record.drift_magnitude as int),
            )
            &&& d.sigils matches Some(n) && n == count_true(record.memory_sectors@)
        },
{
    if record.tick_number > last_tick {
        Some(map_consciousness_to_dawn_state(record))
    } else {
        None
    }
}

/// One step of the bridge loop: polls the reader once and, when a
/// record with a tick beyond the last published one arrives, derives
/// the presentation state to publish. Published ticks only move
/// forward, at most one state per newly observed tick, and polling
/// while the producer is idle publishes nothing, so states are
/// published in strictly increasing tick order and never twice.
pub fn bridge_step(reader: &mut ConsciousnessReader, last_tick: u32, now_ms: u64) -> (r: Option<
    DawnState,
>)
    requires
        old(reader).well_formed(),
    ensures
        final(reader).well_formed(),
        final(reader).is_attached() == old(reader).is_attached(),
        r matches Some(d) ==> {
            &&& d.tick_number > last_tick
            &&& (d.entropy == MICRO_NAN || 0 <= d.entropy <= MICRO_UNIT)
            &&& (d.scup == MICRO_NAN || 0 <= d.scup <= 100_000_000)
            &&& d.heat matches Some(h) && (h == MICRO_NAN || 0 <= h <= MICRO_UNIT)
            &&& d.zone is Some
            &&& d.sigils matches Some(n) && n <= 64
        },
{
    match reader.read_consciousness_state(now_ms) {
        None => None,
        Some(consciousness) => {
            proof {
                crate::codec::lemma_count_true_bound(consciousness.memory_sectors@);
            }
            publish_decision(&consciousness, last_tick)
        },
    }
}

/// Flash-trigger analysis of one record: whether entropy spiked
/// beyond 0.85 and whether rebloom intensity peaked beyond 0.8, in
/// micro-units; a NaN field triggers nothing.
pub fn consciousness_flash_triggers(consciousness: &ConsciousnessState) -> (r: (bool, bool))
    ensures
        r.0 == micro_gt(consciousness.entropy_gradient as int, 850_000),
        r.1 == micro_gt(consciousness.rebloom_intensity as int, 800_000),
{
    (
        gt_micro(consciousness.entropy_gradient, 850_000),
        gt_micro(consciousness.rebloom_intensity, 800_000),
    )
}

} // verus!
