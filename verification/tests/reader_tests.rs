use dawn_telemetry::bridge::{bridge_step, publish_decision, Mood};
use dawn_telemetry::codec::decode_consciousness_state;
use dawn_telemetry::errors::SegmentError;
use dawn_telemetry::reader::{
    candidate_locations, select_first_existing, ConsciousnessReader, PollOutcome,
};
use dawn_telemetry::segment::{slot_index, slot_offset, validate_consciousness_memory};

const HEADER_SIZE: usize = 64;
const SLOT_SIZE: usize = 8192;

fn build_segment(slots: usize, latest_tick: u32) -> memmap2::MmapMut {
    let mut m = memmap2::MmapMut::map_anon(HEADER_SIZE + slots * SLOT_SIZE).unwrap();
    m[0..4].copy_from_slice(b"DAWN");
    m[4..8].copy_from_slice(&3u32.to_le_bytes());
    m[16..20].copy_from_slice(&latest_tick.to_le_bytes());
    m
}

fn write_record(m: &mut memmap2::MmapMut, tick: u32, embedded_tick: u32, valence: f32) {
    let off = HEADER_SIZE + (tick as usize % 1000) * SLOT_SIZE;
    m[off..off + 4].copy_from_slice(&embedded_tick.to_le_bytes());
    m[off + 12..off + 16].copy_from_slice(&valence.to_le_bytes());
}

#[test]
fn validate_header_rejects_short_segments() {
    // Shorter than the 64-byte header: always too small, never a panic.
    assert_eq!(
        validate_consciousness_memory(&[]),
        Err(SegmentError::SegmentTooSmall)
    );
    assert_eq!(
        validate_consciousness_memory(&vec![0u8; 63]),
        Err(SegmentError::SegmentTooSmall)
    );
    let mut short = vec![0u8; 10];
    short[0..4].copy_from_slice(b"DAWN");
    assert_eq!(
        validate_consciousness_memory(&short),
        Err(SegmentError::SegmentTooSmall)
    );
}

#[test]
fn validate_header_rejects_wrong_magic() {
    let mut buf = vec![0u8; 64];
    buf[0..4].copy_from_slice(b"XXXX");
    // Trailing content must not matter.
    buf[40] = 0xFF;
    match validate_consciousness_memory(&buf) {
        Err(SegmentError::BadMagic(observed)) => assert_eq!(observed, b"XXXX".to_vec()),
        other => panic!("expected BadMagic, got {:?}", other),
    }
    // One byte off is enough.
    buf[0..4].copy_from_slice(b"DAWn");
    assert!(matches!(
        validate_consciousness_memory(&buf),
        Err(SegmentError::BadMagic(_))
    ));
}

#[test]
fn validate_header_accepts_magic_and_reports_version() {
    let mut buf = vec![0u8; 64];
    buf[0..4].copy_from_slice(b"DAWN");
    buf[4..8].copy_from_slice(&9u32.to_le_bytes());
    assert_eq!(validate_consciousness_memory(&buf), Ok(9));
}

#[test]
fn ring_index_wraps_at_capacity() {
    assert_eq!(slot_index(1000), slot_index(0));
    assert_eq!(slot_index(1000), 0);
    assert_eq!(slot_index(1), 1);
    assert_eq!(slot_index(2345), 345);
    assert_eq!(slot_offset(0), 64);
    assert_eq!(slot_offset(1), 64 + 8192);
    assert_eq!(slot_offset(1000), 64);
}

#[test]
fn connect_rejects_small_mapping_and_keeps_reader_detached() {
    let m = memmap2::MmapMut::map_anon(10).unwrap().make_read_only().unwrap();
    let mut reader = ConsciousnessReader::new(0);
    let r = reader.connect_to_consciousness(m, "seg".to_string(), 0);
    assert_eq!(r, Err(SegmentError::SegmentTooSmall));
    assert!(!reader.get_consciousness_monitor(0).is_conscious);
}

#[test]
fn connect_rejects_wrong_magic() {
    let mut m = memmap2::MmapMut::map_anon(HEADER_SIZE + SLOT_SIZE).unwrap();
    m[0..4].copy_from_slice(b"WXYZ");
    let mapped = m.make_read_only().unwrap();
    let mut reader = ConsciousnessReader::new(0);
    match reader.connect_to_consciousness(mapped, "seg".to_string(), 0) {
        Err(SegmentError::BadMagic(observed)) => assert_eq!(observed, b"WXYZ".to_vec()),
        other => panic!("expected BadMagic, got {:?}", other),
    }
    assert!(!reader.get_consciousness_monitor(0).is_conscious);
}

#[test]
fn poll_decodes_a_new_tick_once() {
    let mut m = build_segment(3, 1);
    write_record(&mut m, 1, 77, 0.25);
    let mapped = m.make_read_only().unwrap();

    let mut reader = ConsciousnessReader::new(1_000);
    let version = reader
        .connect_to_consciousness(mapped, "seg".to_string(), 2_000)
        .unwrap();
    assert_eq!(version, 3);

    match reader.poll_next_tick(2_016) {
        PollOutcome::NewRecord(st) => {
            assert_eq!(st.tick_number, 77);
            assert_eq!(st.mood_valence, 250_000);
        }
        other => panic!("expected a record, got {:?}", other),
    }

    // The header still shows tick 1: no second emission.
    assert!(matches!(reader.poll_next_tick(2_032), PollOutcome::NoNewTick));
    assert!(reader.read_consciousness_state(2_048).is_none());

    let monitor = reader.get_consciousness_monitor(5_000);
    assert!(monitor.is_conscious);
    assert_eq!(monitor.current_tick, 1);
    assert_eq!(monitor.memory_file_path, "seg".to_string());
    // One observation only: no rate yet.
    assert_eq!(monitor.thought_rate_micro_hz, 0);
    assert_eq!(monitor.neural_activity, 0);
    // Attached at 2000 ms, asked at 5000 ms.
    assert_eq!(monitor.uptime_seconds, 3);
}

#[test]
fn poll_reports_out_of_bounds_when_slot_exceeds_mapping() {
    // One slot only, but the latest tick lives in slot 2.
    let m = build_segment(1, 2);
    let mapped = m.make_read_only().unwrap();
    let mut reader = ConsciousnessReader::new(0);
    reader
        .connect_to_consciousness(mapped, "seg".to_string(), 0)
        .unwrap();
    assert!(matches!(reader.poll_next_tick(16), PollOutcome::OutOfBounds(2)));
    // A failed read leaves the bookkeeping untouched, so the reader
    // keeps reporting the desynchronization while it lasts.
    assert_eq!(reader.get_consciousness_monitor(16).current_tick, 0);
    assert!(matches!(reader.poll_next_tick(32), PollOutcome::OutOfBounds(2)));
    assert!(reader.read_consciousness_state(48).is_none());
}

#[test]
fn bridge_step_emits_once_per_fresh_tick() {
    let mut m = build_segment(3, 1);
    write_record(&mut m, 1, 9, 0.4);
    let mapped = m.make_read_only().unwrap();
    let mut reader = ConsciousnessReader::new(0);
    reader
        .connect_to_consciousness(mapped, "seg".to_string(), 0)
        .unwrap();

    let d = bridge_step(&mut reader, 0, 16).expect("fresh tick should emit");
    assert_eq!(d.tick_number, 9);
    assert!(d.zone.is_some());
    assert_eq!(d.sigils, Some(0));
    // Nothing new in the header: no further emission.
    assert!(bridge_step(&mut reader, d.tick_number, 32).is_none());
}

#[test]
fn bridge_step_suppresses_published_and_stale_ticks() {
    let mut m = build_segment(3, 1);
    write_record(&mut m, 1, 9, 0.4);
    let mapped = m.make_read_only().unwrap();
    let mut reader = ConsciousnessReader::new(0);
    reader
        .connect_to_consciousness(mapped, "seg".to_string(), 0)
        .unwrap();
    // The record's embedded tick equals the last published one.
    assert!(bridge_step(&mut reader, 9, 16).is_none());

    let mut m2 = build_segment(3, 1);
    write_record(&mut m2, 1, 9, 0.4);
    let mapped2 = m2.make_read_only().unwrap();
    let mut reader2 = ConsciousnessReader::new(0);
    reader2
        .connect_to_consciousness(mapped2, "seg".to_string(), 0)
        .unwrap();
    // A record behind the last published tick is never re-published.
    assert!(bridge_step(&mut reader2, 20, 16).is_none());
}

#[test]
fn publish_decision_emits_only_forward() {
    let mut buf = vec![0u8; 80];
    buf[0..4].copy_from_slice(&10u32.to_le_bytes());
    buf[12..16].copy_from_slice(&0.4f32.to_le_bytes());
    buf[16..20].copy_from_slice(&0.2f32.to_le_bytes());
    buf[24..28].copy_from_slice(&0.8f32.to_le_bytes());
    let record = decode_consciousness_state(&buf).unwrap();

    let d = publish_decision(&record, 9).expect("tick 10 exceeds 9");
    assert_eq!(d.tick_number, 10);
    assert_eq!(d.mood, Mood::Calm);
    assert_eq!(d.sigils, Some(0));
    // Equal or lower published ticks suppress the emission.
    assert!(publish_decision(&record, 10).is_none());
    assert!(publish_decision(&record, 11).is_none());
}

#[test]
fn reader_never_surfaces_an_older_header_tick() {
    // Once tick 5 has been observed, a header still showing 5 (or
    // anything below it) surfaces nothing and changes nothing.
    let mut m = build_segment(7, 5);
    write_record(&mut m, 5, 5, 0.1);
    let mapped = m.make_read_only().unwrap();
    let mut reader = ConsciousnessReader::new(0);
    reader
        .connect_to_consciousness(mapped, "seg".to_string(), 0)
        .unwrap();
    assert!(matches!(reader.poll_next_tick(16), PollOutcome::NewRecord(_)));
    assert_eq!(reader.get_consciousness_monitor(16).current_tick, 5);
    // Ticks at or below the observed one are gone for good; the
    // header still says 5, so nothing more comes out.
    assert!(reader.read_consciousness_state(32).is_none());
    assert_eq!(reader.get_consciousness_monitor(32).current_tick, 5);
}

#[test]
fn candidate_paths_keep_discovery_order() {
    let v = candidate_locations("/tmp/explicit.mmap", "/tmp/from_env.mmap");
    assert_eq!(v.len(), 7);
    assert_eq!(v[0], "/tmp/explicit.mmap");
    assert_eq!(v[1], "./dawn_state.mmap");
    assert_eq!(v[6], "/tmp/from_env.mmap");
}

#[test]
fn first_existing_path_wins() {
    let paths: Vec<String> = vec![
        "".to_string(),
        "a".to_string(),
        "b".to_string(),
        "c".to_string(),
    ];
    // An empty path never wins, even if flagged as existing.
    let exists = vec![true, false, true, true];
    assert_eq!(select_first_existing(&paths, &exists), Some(2));
    let none = vec![true, false, false, false];
    assert_eq!(select_first_existing(&paths, &none), None);
}
