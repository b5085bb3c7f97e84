//! The metrics record of one window and the quality estimate that goes
//! into it.

use vstd::prelude::*;
use crate::latency::ascending;
use crate::latency::latencies;
use crate::latency::median_rank;
use crate::latency::p99_rank;
use crate::latency::lemma_ascending_is_sorted_rearrangement;
use crate::latency::lemma_ascending_unique;
use crate::latency::non_decreasing;

verus! {

/// One hundred percent, in thousandths of a percent.
pub const FULL_MILLIPCT: u32 = 100_000;

/// What the sampler was doing when a metrics record was made.
#[derive(Clone, Copy, Debug, PartialEq, Eq, Structural)]
pub enum SamplerState {
    /// The window held no sample.
    Idle,
    /// The window held samples.
    Acquiring,
    /// Acquisition failed.
    Error,
}

impl SamplerState {
    /// The lower-case name of the state.
    pub open spec fn label(self) -> Seq<char> {
        match self {
            SamplerState::Idle => "idle"@,
            SamplerState::Acquiring => "acquiring"@,
            SamplerState::Error => "error"@,
        }
    }

    /// The lower-case name of the state.
    pub fn as_str(&self) -> (name: &'static str)
        ensures
            name@ == self.label(),
    {
        match self {
            SamplerState::Idle => "idle",
            SamplerState::Acquiring => "acquiring",
            SamplerState::Error => "error",
        }
    }
}

/// A signal-quality estimate as plain numbers.
pub struct QualityView {
    /// Signal-to-noise ratio of the EEG channels, in thousandths of a decibel.
    pub snr_millidb: int,
    /// Share of samples flagged as artifacts, in thousandths of a percent.
    pub artifact_rate_millipct: nat,
    /// Share of samples lost in transport, in thousandths of a percent.
    pub packet_loss_millipct: nat,
}

impl QualityView {
    /// Both shares lie between zero and one hundred percent.
    pub open spec fn in_range(self) -> bool {
        &&& self.artifact_rate_millipct <= FULL_MILLIPCT
        &&& self.packet_loss_millipct <= FULL_MILLIPCT
    }

    /// The estimate of an empty window: all zero.
    pub open spec fn neutral() -> QualityView {
        QualityView { snr_millidb: 0, artifact_rate_millipct: 0, packet_loss_millipct: 0 }
    }
}

/// The signal quality of one window, as an estimator reports it. Every
/// value of this type has its two shares within zero and one hundred
/// percent.
#[derive(Clone, Copy, Debug)]
pub struct QualityEstimate {
    snr_millidb: i32,
    artifact_rate_millipct: u32,
    packet_loss_millipct: u32,
}

impl View for QualityEstimate {
    type V = QualityView;

    closed spec fn view(&self) -> QualityView {
        QualityView {
            snr_millidb: self.snr_millidb as int,
            artifact_rate_millipct: self.artifact_rate_millipct as nat,
            packet_loss_millipct: self.packet_loss_millipct as nat,
        }
    }
}

impl QualityEstimate {
    #[verifier::type_invariant]
    spec fn shares_in_range(self) -> bool {
        self@.in_range()
    }

    /// An estimate of the given values, unless a share is above one hundred
    /// percent.
    pub fn new(snr_millidb: i32, artifact_rate_millipct: u32, packet_loss_millipct: u32) -> (q:
        Option<QualityEstimate>)
        ensures
            q is Some <==> artifact_rate_millipct <= FULL_MILLIPCT && packet_loss_millipct
                <= FULL_MILLIPCT,
            q matches Some(e) ==> e@ == (QualityView {
                snr_millidb: snr_millidb as int,
                artifact_rate_millipct: artifact_rate_millipct as nat,
                packet_loss_millipct: packet_loss_millipct as nat,
            }),
    {
        if artifact_rate_millipct <= FULL_MILLIPCT && packet_loss_millipct <= FULL_MILLIPCT {
            Some(QualityEstimate { snr_millidb, artifact_rate_millipct, packet_loss_millipct })
        } else {
            None
        }
    }

    /// The estimate of an empty window: all zero.
    pub fn neutral() -> (q: QualityEstimate)
        ensures
            q@ == QualityView::neutral(),
    {
        QualityEstimate { snr_millidb: 0, artifact_rate_millipct: 0, packet_loss_millipct: 0 }
    }

    /// Signal-to-noise ratio of the EEG channels, in thousandths of a decibel.
    pub fn snr_millidb(&self) -> (v: i32)
        ensures
            v == self@.snr_millidb,
    {
        self.snr_millidb
    }

    /// Share of samples flagged as artifacts, in thousandths of a percent.
    pub fn artifact_rate_millipct(&self) -> (v: u32)
        ensures
            v == self@.artifact_rate_millipct,
            v <= FULL_MILLIPCT,
    {
        proof {
            use_type_invariant(self);
        }
        self.artifact_rate_millipct
    }

    /// Share of samples lost in transport, in thousandths of a percent.
    pub fn packet_loss_millipct(&self) -> (v: u32)
        ensures
            v == self@.packet_loss_millipct,
            v <= FULL_MILLIPCT,
    {
        proof {
            use_type_invariant(self);
        }
        self.packet_loss_millipct
    }
}

/// The metrics of one window.
#[derive(Debug)]
pub struct SamplerMetrics {
    pub session_id: String,
    pub state: SamplerState,
    /// Signal-to-noise ratio of the EEG channels, in thousandths of a decibel.
    pub eeg_snr_millidb: i32,
    /// Share of samples flagged as artifacts, in thousandths of a percent.
    pub artifact_rate_millipct: u32,
    /// Median of the sample latencies, in nanoseconds.
    pub median_latency_ns: u64,
    /// 99th percentile of the sample latencies, in nanoseconds.
    pub p99_latency_ns: u64,
    /// Share of samples lost in transport, in thousandths of a percent.
    pub packet_loss_millipct: u32,
}

/// A metrics record as plain values.
pub struct MetricsView {
    pub session_id: Seq<char>,
    pub state: SamplerState,
    pub eeg_snr_millidb: int,
    pub artifact_rate_millipct: nat,
    pub median_latency_ns: nat,
    pub p99_latency_ns: nat,
    pub packet_loss_millipct: nat,
}

impl MetricsView {
    /// What every record that the sampler makes satisfies: the shares lie
    /// within zero and one hundred percent, and the median latency is at
    /// most the 99th percentile.
    pub open spec fn well_formed(self) -> bool {
        &&& self.artifact_rate_millipct <= FULL_MILLIPCT
        &&& self.packet_loss_millipct <= FULL_MILLIPCT
        &&& self.median_latency_ns <= self.p99_latency_ns
    }

    /// The record of an empty window: idle, every number zero.
    pub open spec fn neutral(session_id: Seq<char>) -> MetricsView {
        MetricsView {
            session_id,
            state: SamplerState::Idle,
            eeg_snr_millidb: 0,
            artifact_rate_millipct: 0,
            median_latency_ns: 0,
            p99_latency_ns: 0,
            packet_loss_millipct: 0,
        }
    }

    /// The record of a window whose samples bear `stamps`, seen at
    /// `now_ns`, with signal quality `quality`. The latencies are ranked in
    /// ascending order; the median is the one at rank `floor(n / 2)`, the
    /// 99th percentile the one at rank `min(floor(n * 99 / 100), n - 1)`.
    pub open spec fn of_window(
        session_id: Seq<char>,
        stamps: Seq<u64>,
        now_ns: u64,
        quality: QualityView,
    ) -> MetricsView {
        if stamps.len() == 0 {
            MetricsView::neutral(session_id)
        } else {
            let ranked = ascending(latencies(stamps, now_ns));
            MetricsView {
                session_id,
                state: SamplerState::Acquiring,
                eeg_snr_millidb: quality.snr_millidb,
                artifact_rate_millipct: quality.artifact_rate_millipct,
                median_latency_ns: ranked[median_rank(stamps.len()) as int] as nat,
                p99_latency_ns: ranked[p99_rank(stamps.len()) as int] as nat,
                packet_loss_millipct: quality.packet_loss_millipct,
            }
        }
    }
}

impl View for SamplerMetrics {
    type V = MetricsView;

    open spec fn view(&self) -> MetricsView {
        MetricsView {
            session_id: self.session_id@,
            state: self.state,
            eeg_snr_millidb: self.eeg_snr_millidb as int,
            artifact_rate_millipct: self.artifact_rate_millipct as nat,
            median_latency_ns: self.median_latency_ns as nat,
            p99_latency_ns: self.p99_latency_ns as nat,
            packet_loss_millipct: self.packet_loss_millipct as nat,
        }
    }
}

impl Clone for SamplerMetrics {
    fn clone(&self) -> (copy: Self)
        ensures
            copy@ == self@,
    {
        SamplerMetrics {
            session_id: self.session_id.clone(),
            state: self.state,
            eeg_snr_millidb: self.eeg_snr_millidb,
            artifact_rate_millipct: self.artifact_rate_millipct,
            median_latency_ns: self.median_latency_ns,
            p99_latency_ns: self.p99_latency_ns,
            packet_loss_millipct: self.packet_loss_millipct,
        }
    }
}

/// For every window and every moment, the median latency is at most the
/// 99th percentile, and with a quality estimate in range the whole record
/// is well formed.
pub proof fn lemma_metrics_well_formed(
    session_id: Seq<char>,
    stamps: Seq<u64>,
    now_ns: u64,
    quality: QualityView,
)
    requires
        quality.in_range(),
    ensures
        MetricsView::of_window(session_id, stamps, now_ns, quality).well_formed(),
        MetricsView::of_window(session_id, stamps, now_ns, quality).median_latency_ns
            <= MetricsView::of_window(session_id, stamps, now_ns, quality).p99_latency_ns,
{
    if stamps.len() > 0 {
        let n = stamps.len();
        lemma_ascending_is_sorted_rearrangement(latencies(stamps, now_ns));
        assert(median_rank(n) <= p99_rank(n) < n) by (nonlinear_arith)
            requires
                n > 0,
                median_rank(n) == n / 2,
                p99_rank(n) == if n * 99 / 100 <= n - 1 {
                    n * 99 / 100
                } else {
                    (n - 1) as nat
                },
        ;
    }
}

/// The ranks are taken in the ascending arrangement of the latencies,
/// whatever the order of the samples: where `ranked` holds the latencies
/// of a window in ascending order, the median is `ranked[floor(n / 2)]` and
/// the 99th percentile is `ranked[min(floor(n * 99 / 100), n - 1)]`.
pub proof fn lemma_ranks_of_ascending_latencies(
    session_id: Seq<char>,
    stamps: Seq<u64>,
    now_ns: u64,
    quality: QualityView,
    ranked: Seq<u64>,
)
    requires
        stamps.len() > 0,
        non_decreasing(ranked),
        ranked.to_multiset() =~= latencies(stamps, now_ns).to_multiset(),
    ensures
        MetricsView::of_window(session_id, stamps, now_ns, quality).median_latency_ns
            == ranked[(stamps.len() / 2) as int],
        MetricsView::of_window(session_id, stamps, now_ns, quality).p99_latency_ns
            == ranked[p99_rank(stamps.len()) as int],
        p99_rank(stamps.len()) == if stamps.len() * 99 / 100 <= stamps.len() - 1 {
            stamps.len() * 99 / 100
        } else {
            (stamps.len() - 1) as nat
        },
{
    lemma_ascending_unique(latencies(stamps, now_ns), ranked);
}

/// The record of an empty window is the neutral one, whatever the moment
/// and the quality estimate.
pub proof fn lemma_empty_window_is_neutral(
    session_id: Seq<char>,
    now_ns: u64,
    quality: QualityView,
)
    ensures
        MetricsView::of_window(session_id, Seq::empty(), now_ns, quality) == MetricsView::neutral(
            session_id,
        ),
{
}

} // verus!
