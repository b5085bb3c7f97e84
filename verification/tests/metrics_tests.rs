use bci_pipeline::config::XrBciSamplerConfig;
use bci_pipeline::metrics::QualityEstimate;
use bci_pipeline::metrics::SamplerState;
use bci_pipeline::metrics::FULL_MILLIPCT;
use bci_pipeline::sample::BciSample;
use bci_pipeline::sampler::XrBciSampler;

const MS: u64 = 1_000_000;
const NOW: u64 = 1_700_000_000_000_000_000;

fn sampler() -> XrBciSampler {
    XrBciSampler::new(XrBciSamplerConfig {
        eeg_channels: 16,
        sample_rate_hz: 100,
        window_ms: 1000,
        overlap_ms: 250,
        max_latency_ns: 50_000_000,
    })
    .unwrap()
}

fn sample_stamped(timestamp_unix_ns: u64) -> BciSample {
    BciSample {
        timestamp_unix_ns,
        eeg: vec![0; 16],
        emg: vec![0; 4],
        eog: vec![0; 2],
        ppg: vec![0; 2],
        eda: vec![0; 1],
    }
}

/// `n` samples whose latencies at `NOW` are 0, 10, 20, ... milliseconds,
/// the most delayed first.
fn window_of(n: u64) -> Vec<BciSample> {
    (0..n).rev().map(|i| sample_stamped(NOW - i * 10 * MS)).collect()
}

fn fixed(_window: &[BciSample]) -> QualityEstimate {
    QualityEstimate::new(22_000, 3_000, 1_000).unwrap()
}

fn as_ms(ns: u64) -> f32 {
    ns as f32 / 1_000_000.0
}

#[test]
fn empty_window_gives_the_neutral_record() {
    let s = sampler();
    for now in [0u64, 1, NOW, u64::MAX] {
        let m = s.compute_metrics(&[], now, fixed);
        assert_eq!(&m.session_id, s.session_id());
        assert_eq!(m.state, SamplerState::Idle);
        assert_eq!(m.eeg_snr_millidb, 0);
        assert_eq!(m.artifact_rate_millipct, 0);
        assert_eq!(m.median_latency_ns, 0);
        assert_eq!(m.p99_latency_ns, 0);
        assert_eq!(m.packet_loss_millipct, 0);
    }
}

#[test]
fn empty_window_does_not_consult_the_estimator() {
    let s = sampler();
    let m = s.compute_metrics(&[], NOW, |_w: &[BciSample]| -> QualityEstimate {
        panic!("the estimator was called for an empty window")
    });
    assert_eq!(m.state, SamplerState::Idle);
}

#[test]
fn five_samples_give_median_20_and_p99_40_milliseconds() {
    let s = sampler();
    let m = s.compute_metrics(&window_of(5), NOW, fixed);
    assert_eq!(m.state, SamplerState::Acquiring);
    assert_eq!(m.median_latency_ns, 20 * MS);
    assert_eq!(m.p99_latency_ns, 40 * MS);
    assert_eq!(as_ms(m.median_latency_ns), 20.0);
    assert_eq!(as_ms(m.p99_latency_ns), 40.0);
}

#[test]
fn ranks_follow_the_index_formulas() {
    let s = sampler();
    let cases: Vec<(u64, u64, u64)> = vec![
        (1, 0, 0),
        (2, 10, 10),
        (3, 10, 20),
        (4, 20, 30),
        (100, 500, 990),
        (101, 500, 990),
        (200, 1000, 1980),
        (250, 1250, 2470),
    ];
    for (n, median_ms, p99_ms) in cases {
        let m = s.compute_metrics(&window_of(n), NOW, fixed);
        assert_eq!(m.median_latency_ns, median_ms * MS);
        assert_eq!(m.p99_latency_ns, p99_ms * MS);
        assert!(m.median_latency_ns <= m.p99_latency_ns);
    }
}

#[test]
fn the_order_of_arrival_does_not_matter() {
    let s = sampler();
    let mut window = window_of(5);
    window.swap(0, 3);
    window.swap(1, 4);
    let m = s.compute_metrics(&window, NOW, fixed);
    assert_eq!(m.median_latency_ns, 20 * MS);
    assert_eq!(m.p99_latency_ns, 40 * MS);
}

#[test]
fn samples_from_the_future_have_zero_latency() {
    let s = sampler();
    let window = vec![
        sample_stamped(NOW + 5 * MS),
        sample_stamped(NOW + 1),
        sample_stamped(NOW - 30 * MS),
    ];
    let m = s.compute_metrics(&window, NOW, fixed);
    assert_eq!(m.median_latency_ns, 0);
    assert_eq!(m.p99_latency_ns, 30 * MS);
    let all_ahead = vec![sample_stamped(u64::MAX), sample_stamped(NOW + 1)];
    let m = s.compute_metrics(&all_ahead, NOW, fixed);
    assert_eq!(m.median_latency_ns, 0);
    assert_eq!(m.p99_latency_ns, 0);
}

#[test]
fn quality_comes_from_the_estimator() {
    let s = sampler();
    let m = s.compute_metrics(&window_of(5), NOW, fixed);
    assert_eq!(m.eeg_snr_millidb, 22_000);
    assert_eq!(m.artifact_rate_millipct, 3_000);
    assert_eq!(m.packet_loss_millipct, 1_000);
    assert_eq!(&m.session_id, s.session_id());

    let by_length = |w: &[BciSample]| -> QualityEstimate {
        QualityEstimate::new(-(w.len() as i32), w.len() as u32, FULL_MILLIPCT).unwrap()
    };
    let m = s.compute_metrics(&window_of(7), NOW, by_length);
    assert_eq!(m.eeg_snr_millidb, -7);
    assert_eq!(m.artifact_rate_millipct, 7);
    assert_eq!(m.packet_loss_millipct, 100_000);
}

#[test]
fn metrics_of_takes_the_estimate_as_given() {
    let s = sampler();
    let q = QualityEstimate::new(-1_500, 0, 100_000).unwrap();
    let m = s.metrics_of(&window_of(3), NOW, q);
    assert_eq!(m.state, SamplerState::Acquiring);
    assert_eq!(m.eeg_snr_millidb, -1_500);
    assert_eq!(m.artifact_rate_millipct, 0);
    assert_eq!(m.packet_loss_millipct, 100_000);
    assert_eq!(m.median_latency_ns, 10 * MS);
    assert_eq!(m.p99_latency_ns, 20 * MS);
    let idle = s.metrics_of(&[], NOW, q);
    assert_eq!(idle.state, SamplerState::Idle);
    assert_eq!(idle.eeg_snr_millidb, 0);
    assert_eq!(idle.packet_loss_millipct, 0);
}

#[test]
fn estimate_refuses_shares_above_one_hundred_percent() {
    assert!(QualityEstimate::new(0, 100_000, 100_000).is_some());
    assert!(QualityEstimate::new(i32::MIN, 0, 0).is_some());
    assert!(QualityEstimate::new(i32::MAX, 0, 0).is_some());
    assert!(QualityEstimate::new(0, 100_001, 0).is_none());
    assert!(QualityEstimate::new(0, 0, 100_001).is_none());
    assert!(QualityEstimate::new(0, u32::MAX, u32::MAX).is_none());
}

#[test]
fn estimate_hands_back_its_values() {
    let q = QualityEstimate::new(22_500, 3_500, 1_000).unwrap();
    assert_eq!(q.snr_millidb(), 22_500);
    assert_eq!(q.artifact_rate_millipct(), 3_500);
    assert_eq!(q.packet_loss_millipct(), 1_000);
    let n = QualityEstimate::neutral();
    assert_eq!(n.snr_millidb(), 0);
    assert_eq!(n.artifact_rate_millipct(), 0);
    assert_eq!(n.packet_loss_millipct(), 0);
}

#[test]
fn states_have_lower_case_names() {
    assert_eq!(SamplerState::Idle.as_str(), "idle");
    assert_eq!(SamplerState::Acquiring.as_str(), "acquiring");
    assert_eq!(SamplerState::Error.as_str(), "error");
}

#[test]
fn a_copy_of_a_record_holds_the_same_values() {
    let s = sampler();
    let m = s.compute_metrics(&window_of(5), NOW, fixed);
    let c = m.clone();
    assert_eq!(c.session_id, m.session_id);
    assert_eq!(c.state, m.state);
    assert_eq!(c.eeg_snr_millidb, m.eeg_snr_millidb);
    assert_eq!(c.artifact_rate_millipct, m.artifact_rate_millipct);
    assert_eq!(c.median_latency_ns, m.median_latency_ns);
    assert_eq!(c.p99_latency_ns, m.p99_latency_ns);
    assert_eq!(c.packet_loss_millipct, m.packet_loss_millipct);
}
