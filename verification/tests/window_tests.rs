use bci_pipeline::config::XrBciSamplerConfig;
use bci_pipeline::sample::BciSample;
use bci_pipeline::window::EngineState;
use bci_pipeline::window::PushOutcome;
use bci_pipeline::window::WindowingEngine;

const MS: u64 = 1_000_000;

fn config(window_ms: u32, overlap_ms: u32) -> XrBciSamplerConfig {
    XrBciSamplerConfig {
        eeg_channels: 16,
        sample_rate_hz: 100,
        window_ms,
        overlap_ms,
        max_latency_ns: 50_000_000,
    }
}

fn sample_at(ms: u64) -> BciSample {
    BciSample {
        timestamp_unix_ns: ms * MS,
        eeg: vec![ms as u32; 16],
        emg: vec![1; 4],
        eog: vec![2; 2],
        ppg: vec![3; 2],
        eda: vec![4; 1],
    }
}

fn stamps_ms(window: &[BciSample]) -> Vec<u64> {
    window.iter().map(|s| s.timestamp_unix_ns / MS).collect()
}

fn batch(from_ms: u64, to_ms: u64) -> Vec<BciSample> {
    (from_ms..=to_ms).step_by(10).map(sample_at).collect()
}

#[test]
fn engine_starts_idle() {
    let engine = WindowingEngine::new(&config(100, 20)).unwrap();
    assert_eq!(engine.state(), EngineState::Idle);
    assert_eq!(engine.len(), 0);
}

#[test]
fn push_accepts_well_formed_sample() {
    let mut engine = WindowingEngine::new(&config(100, 20)).unwrap();
    assert_eq!(engine.push(sample_at(0)), PushOutcome::Accepted);
    assert_eq!(engine.state(), EngineState::Accumulating);
    assert_eq!(engine.len(), 1);
}

#[test]
fn window_is_ready_once_the_span_reaches_the_duration() {
    let mut engine = WindowingEngine::new(&config(100, 20)).unwrap();
    for s in batch(0, 90) {
        assert_eq!(engine.push(s), PushOutcome::Accepted);
        assert_eq!(engine.state(), EngineState::Accumulating);
    }
    assert!(engine.poll_window().is_none());
    assert_eq!(engine.len(), 10);
    assert_eq!(engine.push(sample_at(100)), PushOutcome::Accepted);
    assert_eq!(engine.state(), EngineState::WindowReady);
}

#[test]
fn round_trip_yields_all_fed_samples_then_the_overlap_tail_leads() {
    let mut engine = WindowingEngine::new(&config(100, 20)).unwrap();
    for s in batch(0, 100) {
        assert_eq!(engine.push(s), PushOutcome::Accepted);
    }
    let first = engine.poll_window().unwrap();
    assert_eq!(stamps_ms(&first), vec![0, 10, 20, 30, 40, 50, 60, 70, 80, 90, 100]);
    assert_eq!(first[3].eeg, vec![30u32; 16]);
    assert_eq!(engine.state(), EngineState::Accumulating);
    assert_eq!(engine.len(), 2);

    let report = engine.feed(batch(110, 200));
    assert_eq!(report.malformed, 0);
    assert_eq!(report.stale, 0);
    assert_eq!(report.windows.len(), 1);
    let second = &report.windows[0];
    assert_eq!(stamps_ms(second), vec![90, 100, 110, 120, 130, 140, 150, 160, 170, 180, 190]);
    assert_eq!(second[0].eeg, first[9].eeg);
    assert_eq!(second[1].eeg, first[10].eeg);
    assert_eq!(stamps_ms(&engine.flush()), vec![180, 190, 200]);
}

#[test]
fn a_short_batch_is_handed_out_on_request() {
    let mut engine = WindowingEngine::new(&config(100, 20)).unwrap();
    let report = engine.feed(batch(0, 90));
    assert!(report.windows.is_empty());
    assert_eq!(engine.state(), EngineState::Accumulating);
    let window = engine.flush();
    assert_eq!(stamps_ms(&window), vec![0, 10, 20, 30, 40, 50, 60, 70, 80, 90]);
    assert_eq!(stamps_ms(&engine.flush()), vec![80, 90]);
}

#[test]
fn flush_of_an_idle_engine_yields_an_empty_window() {
    let mut engine = WindowingEngine::new(&config(100, 20)).unwrap();
    assert!(engine.flush().is_empty());
    assert_eq!(engine.state(), EngineState::Idle);
    assert!(engine.poll_window().is_none());
}

#[test]
fn without_overlap_nothing_is_kept() {
    let mut engine = WindowingEngine::new(&config(100, 0)).unwrap();
    let report = engine.feed(batch(0, 100));
    assert_eq!(report.windows.len(), 1);
    assert_eq!(report.windows[0].len(), 11);
    assert_eq!(engine.state(), EngineState::Idle);
    assert_eq!(engine.len(), 0);
}

#[test]
fn overlap_tail_excludes_the_sample_one_overlap_before_the_end() {
    let mut engine = WindowingEngine::new(&config(100, 30)).unwrap();
    engine.feed(batch(0, 90));
    engine.flush();
    assert_eq!(stamps_ms(&engine.flush()), vec![70, 80, 90]);
}

#[test]
fn malformed_sample_is_rejected_and_the_window_still_completes() {
    let mut engine = WindowingEngine::new(&config(100, 20)).unwrap();
    for s in batch(0, 40) {
        assert_eq!(engine.push(s), PushOutcome::Accepted);
    }
    let mut short = sample_at(45);
    short.eeg.pop();
    assert_eq!(engine.push(short), PushOutcome::Malformed);
    let mut long = sample_at(46);
    long.eda.push(0);
    assert_eq!(engine.push(long), PushOutcome::Malformed);
    assert_eq!(engine.len(), 5);
    for s in batch(50, 100) {
        assert_eq!(engine.push(s), PushOutcome::Accepted);
    }
    let window = engine.poll_window().unwrap();
    assert_eq!(stamps_ms(&window), vec![0, 10, 20, 30, 40, 50, 60, 70, 80, 90, 100]);
}

#[test]
fn every_channel_group_is_checked() {
    let mut engine = WindowingEngine::new(&config(100, 20)).unwrap();
    let mut s = sample_at(0);
    s.emg.push(0);
    assert_eq!(engine.push(s), PushOutcome::Malformed);
    let mut s = sample_at(0);
    s.eog.clear();
    assert_eq!(engine.push(s), PushOutcome::Malformed);
    let mut s = sample_at(0);
    s.ppg.pop();
    assert_eq!(engine.push(s), PushOutcome::Malformed);
    let mut s = sample_at(0);
    s.eda.clear();
    assert_eq!(engine.push(s), PushOutcome::Malformed);
    assert_eq!(engine.state(), EngineState::Idle);
    assert!(sample_at(0).is_well_formed(16));
    assert!(!sample_at(0).is_well_formed(8));
}

#[test]
fn feed_counts_what_it_drops() {
    let mut engine = WindowingEngine::new(&config(100, 20)).unwrap();
    let mut samples = batch(50, 90);
    let mut bad = sample_at(95);
    bad.eeg.push(0);
    samples.push(bad);
    samples.push(sample_at(40));
    samples.push(sample_at(49));
    samples.push(sample_at(100));
    let report = engine.feed(samples);
    assert_eq!(report.malformed, 1);
    assert_eq!(report.stale, 2);
    assert!(report.windows.is_empty());
    assert_eq!(stamps_ms(&engine.flush()), vec![50, 60, 70, 80, 90, 100]);
}

#[test]
fn sample_older_than_the_window_start_is_dropped() {
    let mut engine = WindowingEngine::new(&config(100, 20)).unwrap();
    assert_eq!(engine.push(sample_at(50)), PushOutcome::Accepted);
    assert_eq!(engine.push(sample_at(49)), PushOutcome::Stale);
    assert_eq!(engine.push(sample_at(50)), PushOutcome::Accepted);
    assert_eq!(engine.len(), 2);
}

#[test]
fn late_sample_within_the_window_keeps_its_place_of_arrival() {
    let mut engine = WindowingEngine::new(&config(100, 20)).unwrap();
    assert_eq!(engine.push(sample_at(10)), PushOutcome::Accepted);
    assert_eq!(engine.push(sample_at(60)), PushOutcome::Accepted);
    assert_eq!(engine.push(sample_at(30)), PushOutcome::Accepted);
    assert_eq!(engine.state(), EngineState::Accumulating);
    assert_eq!(engine.push(sample_at(110)), PushOutcome::Accepted);
    assert_eq!(engine.state(), EngineState::WindowReady);
    assert_eq!(stamps_ms(&engine.flush()), vec![10, 60, 30, 110]);
}

#[test]
fn the_window_start_after_a_snapshot_is_the_oldest_kept_sample() {
    let mut engine = WindowingEngine::new(&config(100, 30)).unwrap();
    for ms in [0u64, 95, 85, 100] {
        assert_eq!(engine.push(sample_at(ms)), PushOutcome::Accepted);
    }
    assert_eq!(stamps_ms(&engine.poll_window().unwrap()), vec![0, 95, 85, 100]);
    assert_eq!(engine.len(), 3);
    assert_eq!(engine.push(sample_at(84)), PushOutcome::Stale);
    assert_eq!(engine.push(sample_at(85)), PushOutcome::Accepted);
    assert_eq!(stamps_ms(&engine.flush()), vec![95, 85, 100, 85]);
}

#[test]
fn a_ready_engine_still_takes_samples() {
    let mut engine = WindowingEngine::new(&config(100, 20)).unwrap();
    for s in batch(0, 100) {
        engine.push(s);
    }
    assert_eq!(engine.state(), EngineState::WindowReady);
    assert_eq!(engine.push(sample_at(110)), PushOutcome::Accepted);
    assert_eq!(engine.state(), EngineState::WindowReady);
    assert_eq!(engine.poll_window().unwrap().len(), 12);
    assert_eq!(stamps_ms(&engine.flush()), vec![100, 110]);
}

#[test]
fn feeding_nothing_changes_nothing() {
    let mut engine = WindowingEngine::new(&config(100, 20)).unwrap();
    engine.push(sample_at(0));
    let report = engine.feed(Vec::new());
    assert!(report.windows.is_empty());
    assert_eq!(report.malformed + report.stale, 0);
    assert_eq!(engine.len(), 1);
}

#[test]
fn a_copy_of_a_sample_holds_the_same_readings() {
    let source = sample_at(20);
    let copy = source.clone();
    assert_eq!(copy.timestamp_unix_ns, 20 * MS);
    assert_eq!(copy.eeg, source.eeg);
    assert_eq!(copy.emg, source.emg);
    assert_eq!(copy.eog, source.eog);
    assert_eq!(copy.ppg, source.ppg);
    assert_eq!(copy.eda, source.eda);
    assert_eq!(copy.eeg, vec![20u32; 16]);
}
