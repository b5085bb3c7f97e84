//! The sampler: one session with its configuration, its windowing engine
//! and the metrics of its windows.

use vstd::prelude::*;
use std::time::Instant;
use std::time::SystemTime;
use crate::clock::since_unix_epoch;
use crate::clock::unix_ns_of;
use crate::config::ConfigError;
use crate::config::XrBciSamplerConfig;
use crate::latency::latencies;
use crate::latency::latency_of;
use crate::latency::lemma_ascending_is_sorted_rearrangement;
use crate::latency::median_index;
use crate::latency::p99_index;
use crate::latency::sort_ascending;
use crate::metrics::lemma_metrics_well_formed;
use crate::metrics::MetricsView;
use crate::metrics::QualityEstimate;
use crate::metrics::SamplerMetrics;
use crate::metrics::SamplerState;
use crate::sample::timestamps;
use crate::sample::views;
use crate::sample::BciSample;
use crate::session::fresh_session_id;
use crate::session::is_session_id;
use crate::window::EngineState;
use crate::window::EngineView;
use crate::window::FeedReport;
use crate::window::PushOutcome;
use crate::window::WindowingEngine;
use crate::window::window_views;

verus! {

/// The sampler as a mathematical value.
pub struct SamplerView {
    pub config: XrBciSamplerConfig,
    pub session_id: Seq<char>,
    /// The reading of the monotonic clock at which the session began.
    pub start_time: Instant,
    pub engine: EngineView,
}

/// One sampling session.
#[derive(Debug)]
pub struct XrBciSampler {
    config: XrBciSamplerConfig,
    session_id: String,
    start_time: Instant,
    engine: WindowingEngine,
}

impl View for XrBciSampler {
    type V = SamplerView;

    closed spec fn view(&self) -> SamplerView {
        SamplerView {
            config: self.config,
            session_id: self.session_id@,
            start_time: self.start_time,
            engine: self.engine@,
        }
    }
}

impl XrBciSampler {
    /// A new session on `config` with a fresh identifier and nothing
    /// buffered, or the first fault of `config`.
    pub fn new(config: XrBciSamplerConfig) -> (r: Result<XrBciSampler, ConfigError>)
        ensures
            match config.fault() {
                Some(e) => r == Err::<XrBciSampler, ConfigError>(e),
                None => {
                    &&& r is Ok
                    &&& r->Ok_0@.config == config
                    &&& r->Ok_0@.engine == EngineView::initial(config)
                    &&& is_session_id(r->Ok_0@.session_id)
                },
            },
            config.overlap_ms >= config.window_ms ==> r is Err,
    {
        match WindowingEngine::new(&config) {
            Err(e) => Err(e),
            Ok(engine) => Ok(
                XrBciSampler {
                    config,
                    session_id: fresh_session_id(),
                    start_time: Instant::now(),
                    engine,
                },
            ),
        }
    }

    /// The configuration of the session.
    pub fn config(&self) -> (c: &XrBciSamplerConfig)
        ensures
            *c == self@.config,
    {
        &self.config
    }

    /// The identifier of the session.
    pub fn session_id(&self) -> (id: &String)
        ensures
            id@ == self@.session_id,
    {
        &self.session_id
    }

    /// The reading of the monotonic clock at which the session began.
    pub fn start_time(&self) -> (t: &Instant)
        ensures
            *t == self@.start_time,
    {
        &self.start_time
    }

    /// Where the windowing engine stands.
    pub fn window_state(&self) -> (s: EngineState)
        ensures
            s == self@.engine.state(),
            self@.engine.valid(),
    {
        self.engine.state()
    }

    /// Offers one sample to the windowing engine.
    pub fn push_sample(&mut self, sample: BciSample) -> (outcome: PushOutcome)
        ensures
            outcome == old(self)@.engine.outcome(sample@),
            final(self)@ == (SamplerView {
                engine: old(self)@.engine.push(sample@),
                ..old(self)@
            }),
            final(self)@.engine.valid(),
    {
        self.engine.push(sample)
    }

    /// Offers the samples in order to the windowing engine and hands back
    /// the windows that they completed.
    pub fn ingest(&mut self, samples: Vec<BciSample>) -> (report: FeedReport)
        ensures
            final(self)@ == (SamplerView {
                engine: old(self)@.engine.feed(views(samples@)).engine,
                ..old(self)@
            }),
            window_views(report.windows@) == old(self)@.engine.feed(views(samples@)).windows,
            report.malformed == old(self)@.engine.feed(views(samples@)).malformed,
            report.stale == old(self)@.engine.feed(views(samples@)).stale,
            final(self)@.engine.valid(),
    {
        self.engine.feed(samples)
    }

    /// Hands out what is buffered as a window, complete or not, and keeps
    /// the overlap tail for the next one. With nothing buffered the window
    /// is empty.
    pub fn acquire_window(&mut self) -> (window: Vec<BciSample>)
        ensures
            views(window@) == old(self)@.engine.buffer,
            final(self)@ == (SamplerView {
                engine: old(self)@.engine.after_snapshot(),
                ..old(self)@
            }),
            final(self)@.engine.valid(),
            final(self)@.engine.state() != EngineState::WindowReady,
    {
        self.engine.flush()
    }

    /// The metrics of `window` as seen at `now_unix_ns`, with the signal
    /// quality that was estimated for it. For an empty window the record
    /// is the neutral one and `quality` is not looked at.
    pub fn metrics_of(&self, window: &[BciSample], now_unix_ns: u64, quality: QualityEstimate) -> (m:
        SamplerMetrics)
        ensures
            m@ == MetricsView::of_window(
                self@.session_id,
                timestamps(views(window@)),
                now_unix_ns,
                quality@,
            ),
            m@.well_formed(),
            window@.len() == 0 ==> m@ == MetricsView::neutral(self@.session_id),
    {
        let ghost stamps = timestamps(views(window@));
        let snr: i32 = quality.snr_millidb();
        let artifact_rate: u32 = quality.artifact_rate_millipct();
        let packet_loss: u32 = quality.packet_loss_millipct();
        let n: usize = window.len();
        if n == 0 {
            return SamplerMetrics {
                session_id: self.session_id.clone(),
                state: SamplerState::Idle,
                eeg_snr_millidb: 0,
                artifact_rate_millipct: 0,
                median_latency_ns: 0,
                p99_latency_ns: 0,
                packet_loss_millipct: 0,
            };
        }
        let mut delays: Vec<u64> = Vec::with_capacity(n);
        let mut i: usize = 0;
        while i < n
            invariant
                i <= n,
                n == window.len(),
                stamps == timestamps(views(window@)),
                delays@ == latencies(stamps, now_unix_ns).take(i as int),
            decreases n - i,
        {
            delays.push(latency_of(now_unix_ns, window[i].timestamp_unix_ns));
            assert(delays@ =~= latencies(stamps, now_unix_ns).take(i + 1));
            i += 1;
        }
        assert(delays@ =~= latencies(stamps, now_unix_ns));
        let ranked = sort_ascending(&delays);
        proof {
            lemma_ascending_is_sorted_rearrangement(delays@);
            lemma_metrics_well_formed(self@.session_id, stamps, now_unix_ns, quality@);
        }
        let median: u64 = ranked[median_index(n)];
        let p99: u64 = ranked[p99_index(n)];
        SamplerMetrics {
            session_id: self.session_id.clone(),
            state: SamplerState::Acquiring,
            eeg_snr_millidb: snr,
            artifact_rate_millipct: artifact_rate,
            median_latency_ns: median,
            p99_latency_ns: p99,
            packet_loss_millipct: packet_loss,
        }
    }

    /// The metrics of `window` as seen at `now_unix_ns`. The signal quality
    /// is what `estimator` makes of the window; for an empty window the
    /// record is the neutral one and `estimator` is not called.
    pub fn compute_metrics<F: Fn(&[BciSample]) -> QualityEstimate>(
        &self,
        window: &[BciSample],
        now_unix_ns: u64,
        estimator: F,
    ) -> (m: SamplerMetrics)
        requires
            window@.len() > 0 ==> call_requires(estimator, (window,)),
        ensures
            window@.len() == 0 ==> m@ == MetricsView::neutral(self@.session_id),
            window@.len() > 0 ==> exists|q: QualityEstimate|
                call_ensures(estimator, (window,), q) && m@ == MetricsView::of_window(
                    self@.session_id,
                    timestamps(views(window@)),
                    now_unix_ns,
                    q@,
                ),
            m@.well_formed(),
            m@.median_latency_ns <= m@.p99_latency_ns,
    {
        if window.len() == 0 {
            self.metrics_of(window, now_unix_ns, QualityEstimate::neutral())
        } else {
            let quality = estimator(window);
            self.metrics_of(window, now_unix_ns, quality)
        }
    }

    /// The wall clock's time in nanoseconds since the Unix epoch, as
    /// [`unix_ns_of`] gives it, or nothing where the clock stands before the
    /// epoch.
    pub fn now_unix_ns() -> Option<u64> {
        let now = SystemTime::now();
        match since_unix_epoch(&now) {
            Ok(d) => Some(unix_ns_of(d.as_nanos())),
            Err(_) => None,
        }
    }
}

} // verus!
