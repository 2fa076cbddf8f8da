use dawn_telemetry::bridge::{
    compute_scup, consciousness_flash_triggers, determine_consciousness_zone, determine_mood,
    map_consciousness_to_dawn_state, Mood, Zone,
};
use dawn_telemetry::codec::decode_consciousness_state;
use dawn_telemetry::errors::SegmentError;
use dawn_telemetry::fixed::MICRO_NAN;
use dawn_telemetry::rebloom::{assess_rebloom_priority, Metrics};

#[test]
fn mood_calm_scenario() {
    // valence 0.4, arousal 0.2, dominance 0.0, coherence 0.8
    let m = determine_mood(400_000, 200_000, 0, 800_000);
    assert_eq!(m, Mood::Calm);
}

#[test]
fn mood_cascade_covers_every_label() {
    assert_eq!(determine_mood(600_000, 700_000, 0, 800_000), Mood::Excited);
    assert_eq!(determine_mood(-400_000, 700_000, 0, 800_000), Mood::Focused);
    assert_eq!(determine_mood(100_000, 500_000, 700_000, 800_000), Mood::Confident);
    assert_eq!(determine_mood(-500_000, 600_000, 0, 500_000), Mood::Anxious);
    assert_eq!(determine_mood(-300_000, 300_000, 0, 500_000), Mood::Contemplative);
    assert_eq!(determine_mood(0, 750_000, 0, 500_000), Mood::Energetic);
    assert_eq!(determine_mood(0, 0, 0, 200_000), Mood::Chaotic);
    assert_eq!(determine_mood(0, 850_000, 0, 350_000), Mood::Chaotic);
    assert_eq!(determine_mood(0, 0, 0, 350_000), Mood::Neutral);
    // High coherence but no quadrant match falls through to the
    // medium-coherence rules.
    assert_eq!(determine_mood(0, 750_000, 0, 800_000), Mood::Energetic);
}

#[test]
fn mood_labels() {
    assert_eq!(Mood::Calm.label(), "CALM");
    assert_eq!(Mood::Excited.label(), "EXCITED");
    assert_eq!(Mood::Focused.label(), "FOCUSED");
    assert_eq!(Mood::Confident.label(), "CONFIDENT");
    assert_eq!(Mood::Anxious.label(), "ANXIOUS");
    assert_eq!(Mood::Contemplative.label(), "CONTEMPLATIVE");
    assert_eq!(Mood::Energetic.label(), "ENERGETIC");
    assert_eq!(Mood::Chaotic.label(), "CHAOTIC");
    assert_eq!(Mood::Neutral.label(), "NEUTRAL");
}

#[test]
fn scup_reaches_eighty_at_full_alignment_and_depth() {
    // alignment 1.0, depth 1.0: 50 + 30 on the 0..100 scale.
    assert_eq!(compute_scup(1_000_000, 1_000_000), 80_000_000);
}

#[test]
fn scup_clamps_at_both_ends() {
    assert_eq!(compute_scup(-1_000_000, 0), 0);
    assert_eq!(compute_scup(-1, -1), 0);
    assert_eq!(compute_scup(3_000_000, 0), 100_000_000);
    assert_eq!(compute_scup(i64::MAX, i64::MAX), 100_000_000);
    assert_eq!(compute_scup(-(i64::MAX), -(i64::MAX)), 0);
    assert_eq!(compute_scup(500_000, 500_000), 40_000_000);
}

#[test]
fn nan_fields_fall_through_every_rule() {
    // A NaN field satisfies no threshold, as in float comparisons:
    // all-NaN mood fields classify as the neutral default, not as
    // chaotic low coherence.
    assert_eq!(determine_mood(MICRO_NAN, MICRO_NAN, MICRO_NAN, MICRO_NAN), Mood::Neutral);
    // NaN coherence alone: the high and medium bands and the low
    // band all miss; a calm arousal keeps the chaotic test false.
    assert_eq!(determine_mood(400_000, 200_000, 0, MICRO_NAN), Mood::Neutral);
    // NaN propagates through the composite score.
    assert_eq!(compute_scup(MICRO_NAN, 1_000_000), MICRO_NAN);
    assert_eq!(compute_scup(1_000_000, MICRO_NAN), MICRO_NAN);
    // NaN metrics trigger no severity band.
    assert_eq!(determine_consciousness_zone(MICRO_NAN, MICRO_NAN, MICRO_NAN), Zone::Stable);
    assert_eq!(determine_consciousness_zone(MICRO_NAN, 85_000_000, 0), Zone::Critical);
    // NaN metrics land on the default rebloom priority.
    let nan_metrics = Metrics { scup: MICRO_NAN, entropy: MICRO_NAN, heat: MICRO_NAN };
    assert_eq!(assess_rebloom_priority(&nan_metrics), 4);
}

#[test]
fn nan_record_fields_reach_the_published_state() {
    let mut buf = vec![0u8; 80];
    buf[0..4].copy_from_slice(&5u32.to_le_bytes());
    buf[24..28].copy_from_slice(&f32::NAN.to_le_bytes());
    buf[32..36].copy_from_slice(&f32::NAN.to_le_bytes());
    let st = decode_consciousness_state(&buf).unwrap();
    assert_eq!(st.mood_coherence, MICRO_NAN);
    let d = map_consciousness_to_dawn_state(&st);
    assert_eq!(d.mood, Mood::Neutral);
    assert_eq!(d.entropy, MICRO_NAN);
    assert_eq!(d.zone, Some(Zone::Stable));
    let (entropy_spike, _) = consciousness_flash_triggers(&st);
    assert!(!entropy_spike);
}

#[test]
fn zone_critical_on_high_entropy() {
    // entropy 0.9 forces CRITICAL whatever the other fields say.
    assert_eq!(determine_consciousness_zone(900_000, 0, 0), Zone::Critical);
    assert_eq!(
        determine_consciousness_zone(900_000, 100_000_000, 1_000_000),
        Zone::Critical
    );
}

#[test]
fn zone_bands() {
    assert_eq!(determine_consciousness_zone(0, 0, 0), Zone::Stable);
    assert_eq!(determine_consciousness_zone(450_000, 0, 0), Zone::Elevated);
    assert_eq!(determine_consciousness_zone(0, 45_000_000, 0), Zone::Elevated);
    assert_eq!(determine_consciousness_zone(0, 0, 550_000), Zone::Elevated);
    assert_eq!(determine_consciousness_zone(650_000, 0, 0), Zone::Warning);
    assert_eq!(determine_consciousness_zone(0, 65_000_000, 0), Zone::Warning);
    assert_eq!(determine_consciousness_zone(0, 0, 750_000), Zone::Warning);
    assert_eq!(determine_consciousness_zone(0, 85_000_000, 0), Zone::Critical);
    assert_eq!(determine_consciousness_zone(0, 0, 950_000), Zone::Critical);
    assert_eq!(Zone::Stable.label(), "STABLE");
    assert_eq!(Zone::Critical.label(), "CRITICAL");
    assert_eq!(Zone::Warning.label(), "WARNING");
    assert_eq!(Zone::Elevated.label(), "ELEVATED");
}

fn record_bytes() -> Vec<u8> {
    let mut buf = vec![0u8; 80];
    buf[0..4].copy_from_slice(&42u32.to_le_bytes());
    buf[12..16].copy_from_slice(&0.4f32.to_le_bytes());
    buf[16..20].copy_from_slice(&0.2f32.to_le_bytes());
    buf[24..28].copy_from_slice(&0.8f32.to_le_bytes());
    buf[28..32].copy_from_slice(&1.0f32.to_le_bytes());
    buf[32..36].copy_from_slice(&0.9f32.to_le_bytes());
    buf[36..40].copy_from_slice(&2.5f32.to_le_bytes());
    buf[40..44].copy_from_slice(&0.86f32.to_le_bytes());
    buf[44..48].copy_from_slice(&1.0f32.to_le_bytes());
    buf[72..80].copy_from_slice(&0b1011u64.to_le_bytes());
    buf
}

#[test]
fn map_record_to_dawn_state() {
    let st = decode_consciousness_state(&record_bytes()).unwrap();
    let d = map_consciousness_to_dawn_state(&st);
    assert_eq!(d.tick_number, 42);
    assert_eq!(d.mood, Mood::Calm);
    // entropy 0.9 clamped stays just under 0.9 in micro-units.
    assert_eq!(d.entropy, 899_999);
    assert_eq!(d.scup, 80_000_000);
    // drift 2.5 clamps to one unit of heat.
    assert_eq!(d.heat, Some(1_000_000));
    assert_eq!(d.zone, Some(Zone::Critical));
    assert_eq!(d.sigils, Some(3));
}

#[test]
fn flash_triggers_fire_on_spikes() {
    let st = decode_consciousness_state(&record_bytes()).unwrap();
    let (entropy_spike, rebloom_peak) = consciousness_flash_triggers(&st);
    assert!(entropy_spike);
    assert!(rebloom_peak);

    let calm = decode_consciousness_state(&vec![0u8; 80]).unwrap();
    let (e2, r2) = consciousness_flash_triggers(&calm);
    assert!(!e2);
    assert!(!r2);
}

#[test]
fn rebloom_priorities() {
    // Manic: high entropy and heat.
    let p1 = Metrics { scup: 500_000, entropy: 900_000, heat: 800_000 };
    assert_eq!(assess_rebloom_priority(&p1), 1);
    // Manic by collapsed score alone.
    let p1b = Metrics { scup: 100_000, entropy: 0, heat: 0 };
    assert_eq!(assess_rebloom_priority(&p1b), 1);
    // Fragmented.
    let p2 = Metrics { scup: 250_000, entropy: 0, heat: 0 };
    assert_eq!(assess_rebloom_priority(&p2), 2);
    let p2b = Metrics { scup: 500_000, entropy: 750_000, heat: 600_000 };
    assert_eq!(assess_rebloom_priority(&p2b), 2);
    // Numb stasis.
    let p3 = Metrics { scup: 400_000, entropy: 200_000, heat: 100_000 };
    assert_eq!(assess_rebloom_priority(&p3), 3);
    // Healthy curiosity.
    let p5 = Metrics { scup: 800_000, entropy: 500_000, heat: 500_000 };
    assert_eq!(assess_rebloom_priority(&p5), 5);
    // Contemplative default.
    let p4 = Metrics { scup: 600_000, entropy: 350_000, heat: 350_000 };
    assert_eq!(assess_rebloom_priority(&p4), 4);
}

#[test]
fn error_labels() {
    assert_eq!(SegmentError::SegmentNotFound.label(), "segment not found");
    assert_eq!(SegmentError::SegmentTooSmall.label(), "segment too small");
    assert_eq!(SegmentError::BadMagic(vec![1, 2, 3, 4]).label(), "bad magic");
    assert_eq!(SegmentError::TruncatedRecord.label(), "truncated record");
    assert_eq!(SegmentError::OutOfBounds.label(), "out of bounds");
    assert_eq!(SegmentError::OpenFailed.label(), "open failed");
    assert_eq!(SegmentError::MapFailed.label(), "map failed");
}
