//! The windowing engine: it gathers samples into windows of a configured
//! duration, each sharing a configured overlap with the one before.

use vstd::prelude::*;
use crate::config::ConfigError;
use crate::config::XrBciSamplerConfig;
use crate::sample::views;
use crate::sample::lemma_views_push;
use crate::sample::BciSample;
use crate::sample::SampleView;

verus! {

/// Where the engine stands between two windows.
#[derive(Clone, Copy, Debug, PartialEq, Eq, Structural)]
pub enum EngineState {
    /// Nothing is buffered.
    Idle,
    /// Samples are buffered and span less than the window duration.
    Accumulating,
    /// The buffered samples span the window duration or more.
    WindowReady,
}

/// What became of a sample that was offered to the engine.
#[derive(Clone, Copy, Debug, PartialEq, Eq, Structural)]
pub enum PushOutcome {
    /// The sample was appended to the buffer.
    Accepted,
    /// A channel group of the sample has the wrong length; it was dropped.
    Malformed,
    /// The sample is older than the start of the current window; it was dropped.
    Stale,
}

/// The smallest timestamp among `samples`, and zero where there is none.
pub open spec fn oldest(samples: Seq<SampleView>) -> u64
    decreases samples.len(),
{
    if samples.len() == 0 {
        0
    } else if samples.len() == 1 {
        samples[0].timestamp_unix_ns
    } else {
        let rest = oldest(samples.drop_last());
        if samples.last().timestamp_unix_ns < rest {
            samples.last().timestamp_unix_ns
        } else {
            rest
        }
    }
}

/// The largest timestamp among `samples`, and zero where there is none.
pub open spec fn newest(samples: Seq<SampleView>) -> u64
    decreases samples.len(),
{
    if samples.len() == 0 {
        0
    } else if samples.len() == 1 {
        samples[0].timestamp_unix_ns
    } else {
        let rest = newest(samples.drop_last());
        if samples.last().timestamp_unix_ns > rest {
            samples.last().timestamp_unix_ns
        } else {
            rest
        }
    }
}

/// Whether a sample lies less than `overlap_ns` before `newest_ns`.
pub open spec fn within_overlap(newest_ns: u64, overlap_ns: nat) -> spec_fn(SampleView) -> bool {
    |s: SampleView| newest_ns - s.timestamp_unix_ns < overlap_ns
}

/// The engine as a mathematical value: its settings and the buffered
/// samples in order of arrival.
pub struct EngineView {
    pub eeg_channels: nat,
    pub window_ns: nat,
    pub overlap_ns: nat,
    pub buffer: Seq<SampleView>,
}

impl EngineView {
    /// The engine that a valid `config` starts with: nothing buffered.
    pub open spec fn initial(config: XrBciSamplerConfig) -> EngineView {
        EngineView {
            eeg_channels: config.eeg_channels as nat,
            window_ns: config.spec_window_ns(),
            overlap_ns: config.spec_overlap_ns(),
            buffer: Seq::empty(),
        }
    }

    /// What holds of every engine: the overlap is below the window
    /// duration, and every buffered sample is well formed.
    pub open spec fn valid(self) -> bool {
        &&& self.eeg_channels > 0
        &&& self.overlap_ns < self.window_ns
        &&& forall|i: int|
            0 <= i < self.buffer.len() ==> (#[trigger] self.buffer[i]).well_formed(
                self.eeg_channels,
            )
    }

    /// Time between the oldest and the newest buffered sample.
    pub open spec fn span(self) -> nat {
        (newest(self.buffer) - oldest(self.buffer)) as nat
    }

    /// Where the engine stands: idle with nothing buffered, ready once the
    /// buffered samples span the window duration, accumulating otherwise.
    pub open spec fn state(self) -> EngineState {
        if self.buffer.len() == 0 {
            EngineState::Idle
        } else if self.span() >= self.window_ns {
            EngineState::WindowReady
        } else {
            EngineState::Accumulating
        }
    }

    /// What becomes of `sample` when it is offered.
    pub open spec fn outcome(self, sample: SampleView) -> PushOutcome {
        if !sample.well_formed(self.eeg_channels) {
            PushOutcome::Malformed
        } else if self.buffer.len() > 0 && sample.timestamp_unix_ns < oldest(self.buffer) {
            PushOutcome::Stale
        } else {
            PushOutcome::Accepted
        }
    }

    /// The engine after `sample` was offered: an accepted sample is
    /// appended, any other leaves the engine as it was.
    pub open spec fn push(self, sample: SampleView) -> EngineView {
        if self.outcome(sample) == PushOutcome::Accepted {
            EngineView { buffer: self.buffer.push(sample), ..self }
        } else {
            self
        }
    }

    /// Whether a buffered sample lies less than the overlap duration before
    /// the newest one.
    pub open spec fn in_overlap(self) -> spec_fn(SampleView) -> bool {
        within_overlap(newest(self.buffer), self.overlap_ns)
    }

    /// The buffered samples that the next window starts with.
    pub open spec fn overlap_tail(self) -> Seq<SampleView> {
        self.buffer.filter(self.in_overlap())
    }

    /// The engine after its buffer was handed out as a window.
    pub open spec fn after_snapshot(self) -> EngineView {
        EngineView { buffer: self.overlap_tail(), ..self }
    }
}

/// What feeding a run of samples gives: the engine afterwards, the windows
/// that were completed on the way, and how many samples were dropped.
pub struct FeedView {
    pub engine: EngineView,
    pub windows: Seq<Seq<SampleView>>,
    pub malformed: nat,
    pub stale: nat,
}

impl EngineView {
    /// The engine after the samples were offered one by one and no window
    /// was handed out.
    pub open spec fn push_all(self, samples: Seq<SampleView>) -> EngineView
        decreases samples.len(),
    {
        if samples.len() == 0 {
            self
        } else {
            self.push_all(samples.drop_last()).push(samples.last())
        }
    }

    /// Offers the samples one by one and, each time an accepted sample
    /// leaves the engine ready, hands the window out.
    pub open spec fn feed(self, samples: Seq<SampleView>) -> FeedView
        decreases samples.len(),
    {
        if samples.len() == 0 {
            FeedView { engine: self, windows: Seq::empty(), malformed: 0, stale: 0 }
        } else {
            let before = self.feed(samples.drop_last());
            let sample = samples.last();
            let outcome = before.engine.outcome(sample);
            let offered = before.engine.push(sample);
            let ready = outcome == PushOutcome::Accepted && offered.state()
                == EngineState::WindowReady;
            FeedView {
                engine: if ready {
                    offered.after_snapshot()
                } else {
                    offered
                },
                windows: if ready {
                    before.windows.push(offered.buffer)
                } else {
                    before.windows
                },
                malformed: if outcome == PushOutcome::Malformed {
                    before.malformed + 1
                } else {
                    before.malformed
                },
                stale: if outcome == PushOutcome::Stale {
                    before.stale + 1
                } else {
                    before.stale
                },
            }
        }
    }
}

/// The views of a run of windows, in order.
pub open spec fn window_views(windows: Seq<Vec<BciSample>>) -> Seq<Seq<SampleView>> {
    windows.map_values(|w: Vec<BciSample>| views(w@))
}

/// Every timestamp lies between the oldest and the newest.
pub proof fn lemma_oldest_newest_bound(samples: Seq<SampleView>, i: int)
    requires
        0 <= i < samples.len(),
    ensures
        oldest(samples) <= samples[i].timestamp_unix_ns <= newest(samples),
    decreases samples.len(),
{
    if samples.len() > 1 && i < samples.len() - 1 {
        lemma_oldest_newest_bound(samples.drop_last(), i);
    }
}

/// The oldest and the newest timestamp after one more sample.
pub proof fn lemma_oldest_newest_push(samples: Seq<SampleView>, sample: SampleView)
    ensures
        oldest(samples.push(sample)) == if samples.len() == 0 || sample.timestamp_unix_ns < oldest(
            samples,
        ) {
            sample.timestamp_unix_ns
        } else {
            oldest(samples)
        },
        newest(samples.push(sample)) == if samples.len() == 0 || sample.timestamp_unix_ns > newest(
            samples,
        ) {
            sample.timestamp_unix_ns
        } else {
            newest(samples)
        },
{
    assert(samples.push(sample).drop_last() =~= samples);
}

/// The oldest and the newest timestamp are those of buffered samples.
pub proof fn lemma_oldest_newest_attained(samples: Seq<SampleView>)
    requires
        samples.len() > 0,
    ensures
        exists|i: int| 0 <= i < samples.len() && samples[i].timestamp_unix_ns == oldest(samples),
        exists|i: int| 0 <= i < samples.len() && samples[i].timestamp_unix_ns == newest(samples),
    decreases samples.len(),
{
    if samples.len() == 1 {
        assert(samples[0].timestamp_unix_ns == oldest(samples));
        assert(samples[0].timestamp_unix_ns == newest(samples));
    } else {
        let rest = samples.drop_last();
        lemma_oldest_newest_attained(rest);
        let i = choose|i: int| 0 <= i < rest.len() && rest[i].timestamp_unix_ns == oldest(rest);
        let j = choose|j: int| 0 <= j < rest.len() && rest[j].timestamp_unix_ns == newest(rest);
        let last = samples.len() - 1;
        if samples.last().timestamp_unix_ns < oldest(rest) {
            assert(samples[last].timestamp_unix_ns == oldest(samples));
        } else {
            assert(samples[i].timestamp_unix_ns == oldest(samples));
        }
        if samples.last().timestamp_unix_ns > newest(rest) {
            assert(samples[last].timestamp_unix_ns == newest(samples));
        } else {
            assert(samples[j].timestamp_unix_ns == newest(samples));
        }
    }
}

/// Handing out a window leaves a valid engine that is not ready again: the
/// samples it keeps span less than the overlap, which is below the window
/// duration, and with nothing kept the engine is idle.
pub proof fn lemma_snapshot_not_ready(e: EngineView)
    requires
        e.valid(),
    ensures
        e.after_snapshot().valid(),
        e.after_snapshot().state() != EngineState::WindowReady,
        e.overlap_tail().len() == 0 ==> e.after_snapshot().state() == EngineState::Idle,
        e.overlap_tail().len() > 0 ==> e.after_snapshot().state() == EngineState::Accumulating,
{
    let tail = e.overlap_tail();
    let pred = e.in_overlap();
    assert forall|k: int| 0 <= k < tail.len() implies {
        &&& (#[trigger] tail[k]).well_formed(e.eeg_channels)
        &&& tail[k].timestamp_unix_ns <= newest(e.buffer)
        &&& newest(e.buffer) - tail[k].timestamp_unix_ns < e.overlap_ns
    } by {
        e.buffer.lemma_filter_pred(pred, k);
        e.buffer.lemma_filter_contains_rev(pred, tail[k]);
        let i = choose|i: int| 0 <= i < e.buffer.len() && e.buffer[i] == tail[k];
        lemma_oldest_newest_bound(e.buffer, i);
    }
    if tail.len() > 0 {
        // The oldest and the newest that are kept both lie within the
        // overlap of the newest that was buffered.
        lemma_oldest_newest_attained(tail);
    }
}

/// The buffer with its oldest and newest timestamp at hand.
#[derive(Debug)]
struct SampleBuffer {
    samples: Vec<BciSample>,
    oldest_ns: u64,
    newest_ns: u64,
}

impl SampleBuffer {
    spec fn consistent(self) -> bool {
        self.samples.len() > 0 ==> {
            &&& self.oldest_ns == oldest(views(self.samples@))
            &&& self.newest_ns == newest(views(self.samples@))
        }
    }

    fn empty() -> (b: SampleBuffer)
        ensures
            b.consistent(),
            b.samples@.len() == 0,
    {
        SampleBuffer { samples: Vec::new(), oldest_ns: 0, newest_ns: 0 }
    }

    fn append(&mut self, sample: BciSample)
        requires
            old(self).consistent(),
        ensures
            final(self).consistent(),
            final(self).samples@ == old(self).samples@.push(sample),
    {
        let t: u64 = sample.timestamp_unix_ns;
        proof {
            lemma_views_push(self.samples@, sample);
            lemma_oldest_newest_push(views(self.samples@), sample@);
        }
        if self.samples.len() == 0 {
            self.oldest_ns = t;
            self.newest_ns = t;
        } else {
            if t < self.oldest_ns {
                self.oldest_ns = t;
            }
            if t > self.newest_ns {
                self.newest_ns = t;
            }
        }
        self.samples.push(sample);
    }
}

impl SampleBuffer {
    /// A copy of the samples that lie less than `overlap_ns` before the newest.
    fn overlap_tail(&self, overlap_ns: u64) -> (tail: SampleBuffer)
        requires
            self.consistent(),
        ensures
            tail.consistent(),
            views(tail.samples@) == views(self.samples@).filter(
                within_overlap(newest(views(self.samples@)), overlap_ns as nat),
            ),
    {
        let ghost all = views(self.samples@);
        let ghost pred = within_overlap(newest(all), overlap_ns as nat);
        let mut tail = SampleBuffer::empty();
        let n: usize = self.samples.len();
        let mut i: usize = 0;
        proof {
            reveal(Seq::filter);
            assert(views(self.samples@.take(0)) =~= Seq::<SampleView>::empty());
            assert(views(tail.samples@) =~= Seq::<SampleView>::empty());
        }
        while i < n
            invariant
                i <= n,
                n == self.samples.len(),
                self.consistent(),
                tail.consistent(),
                all == views(self.samples@),
                pred == within_overlap(newest(all), overlap_ns as nat),
                views(tail.samples@) == views(self.samples@.take(i as int)).filter(pred),
            decreases n - i,
        {
            let sample = &self.samples[i];
            proof {
                lemma_oldest_newest_bound(all, i as int);
                assert(self.samples@.take(i + 1) =~= self.samples@.take(i as int).push(*sample));
                lemma_views_push(self.samples@.take(i as int), *sample);
                views(self.samples@.take(i as int)).lemma_filter_push(sample@, pred);
            }
            if self.newest_ns - sample.timestamp_unix_ns < overlap_ns {
                let copy = sample.clone();
                proof {
                    lemma_views_push(tail.samples@, copy);
                }
                tail.append(copy);
            }
            i += 1;
        }
        proof {
            assert(self.samples@.take(n as int) =~= self.samples@);
        }
        tail
    }
}

/// What [`WindowingEngine::feed`] hands back.
#[derive(Debug)]
pub struct FeedReport {
    /// The windows that were completed, oldest first.
    pub windows: Vec<Vec<BciSample>>,
    /// Number of samples dropped as malformed.
    pub malformed: usize,
    /// Number of samples dropped as stale.
    pub stale: usize,
}

/// Gathers samples into windows.
#[derive(Debug)]
pub struct WindowingEngine {
    eeg_channels: usize,
    window_ns: u64,
    overlap_ns: u64,
    buffer: SampleBuffer,
}

impl View for WindowingEngine {
    type V = EngineView;

    closed spec fn view(&self) -> EngineView {
        EngineView {
            eeg_channels: self.eeg_channels as nat,
            window_ns: self.window_ns as nat,
            overlap_ns: self.overlap_ns as nat,
            buffer: views(self.buffer.samples@),
        }
    }
}

impl WindowingEngine {
    #[verifier::type_invariant]
    spec fn consistent(self) -> bool {
        &&& self@.valid()
        &&& self.buffer.consistent()
    }

    /// An idle engine with the settings of `config`, or the first fault of
    /// `config`.
    pub fn new(config: &XrBciSamplerConfig) -> (r: Result<WindowingEngine, ConfigError>)
        ensures
            match config.fault() {
                Some(e) => r == Err::<WindowingEngine, ConfigError>(e),
                None => r is Ok && r->Ok_0@ == EngineView::initial(*config),
            },
            config.overlap_ms >= config.window_ms ==> r is Err,
    {
        match config.validate() {
            Err(e) => Err(e),
            Ok(()) => {
                let engine = WindowingEngine {
                    eeg_channels: config.eeg_channels,
                    window_ns: config.window_ns(),
                    overlap_ns: config.overlap_ns(),
                    buffer: SampleBuffer::empty(),
                };
                assert(engine@.buffer =~= Seq::empty());
                Ok(engine)
            },
        }
    }

    /// Where the engine stands.
    pub fn state(&self) -> (s: EngineState)
        ensures
            s == self@.state(),
            self@.valid(),
    {
        proof {
            use_type_invariant(self);
        }
        if self.buffer.samples.len() == 0 {
            EngineState::Idle
        } else {
            proof {
                lemma_oldest_newest_bound(views(self.buffer.samples@), 0);
            }
            if self.buffer.newest_ns - self.buffer.oldest_ns >= self.window_ns {
                EngineState::WindowReady
            } else {
                EngineState::Accumulating
            }
        }
    }

    /// Number of buffered samples.
    pub fn len(&self) -> (n: usize)
        ensures
            n == self@.buffer.len(),
    {
        self.buffer.samples.len()
    }

    /// Offers one sample. A well-formed sample that is not older than the
    /// oldest buffered one is appended; any other is dropped, and the
    /// buffered samples stay as they are.
    pub fn push(&mut self, sample: BciSample) -> (outcome: PushOutcome)
        ensures
            outcome == old(self)@.outcome(sample@),
            final(self)@ == old(self)@.push(sample@),
            final(self)@.valid(),
    {
        proof {
            use_type_invariant(&*self);
        }
        if !sample.is_well_formed(self.eeg_channels) {
            return PushOutcome::Malformed;
        }
        if self.buffer.samples.len() > 0 && sample.timestamp_unix_ns < self.buffer.oldest_ns {
            return PushOutcome::Stale;
        }
        proof {
            lemma_views_push(self.buffer.samples@, sample);
        }
        // The buffer is taken out while it grows, so that the engine is
        // whole at every moment.
        let mut buffer = SampleBuffer::empty();
        std::mem::swap(&mut self.buffer, &mut buffer);
        buffer.append(sample);
        self.buffer = buffer;
        PushOutcome::Accepted
    }

    /// Hands out the buffered samples as a window, whether or not they
    /// span the window duration, and keeps a copy of the overlap tail as the
    /// start of the next window. With nothing buffered the window is empty.
    pub fn flush(&mut self) -> (window: Vec<BciSample>)
        ensures
            views(window@) == old(self)@.buffer,
            final(self)@ == old(self)@.after_snapshot(),
            final(self)@.valid(),
            final(self)@.state() != EngineState::WindowReady,
    {
        proof {
            use_type_invariant(&*self);
            lemma_snapshot_not_ready(self@);
        }
        let mut taken = SampleBuffer::empty();
        std::mem::swap(&mut self.buffer, &mut taken);
        let tail = taken.overlap_tail(self.overlap_ns);
        self.buffer = tail;
        taken.samples
    }

    /// The completed window, if the buffered samples span the window
    /// duration: then as [`WindowingEngine::flush`]. Otherwise nothing
    /// changes.
    pub fn poll_window(&mut self) -> (window: Option<Vec<BciSample>>)
        ensures
            window is Some <==> old(self)@.state() == EngineState::WindowReady,
            window matches Some(w) ==> views(w@) == old(self)@.buffer && final(self)@ == old(
                self,
            )@.after_snapshot(),
            window is None ==> final(self)@ == old(self)@,
            final(self)@.valid(),
    {
        if self.state() == EngineState::WindowReady {
            Some(self.flush())
        } else {
            None
        }
    }

    /// Offers the samples in order; each time an accepted sample makes the
    /// buffered samples span the window duration, the window is handed out
    /// and the overlap tail starts the next one.
    pub fn feed(&mut self, samples: Vec<BciSample>) -> (report: FeedReport)
        ensures
            final(self)@ == old(self)@.feed(views(samples@)).engine,
            window_views(report.windows@) == old(self)@.feed(views(samples@)).windows,
            report.malformed == old(self)@.feed(views(samples@)).malformed,
            report.stale == old(self)@.feed(views(samples@)).stale,
            final(self)@.valid(),
    {
        let ghost start = self@;
        let ghost all = samples@;
        let mut windows: Vec<Vec<BciSample>> = Vec::new();
        let mut malformed: usize = 0;
        let mut stale: usize = 0;
        proof {
            assert(all.len() == samples.len());
            assert(views(all.take(0)) =~= Seq::<SampleView>::empty());
            assert(window_views(windows@) =~= Seq::<Seq<SampleView>>::empty());
        }
        for sample in it: samples
            invariant
                it.seq() == all,
                all.len() <= usize::MAX,
                malformed + stale <= it.index(),
                self@ == start.feed(views(all.take(it.index()))).engine,
                window_views(windows@) == start.feed(views(all.take(it.index()))).windows,
                malformed == start.feed(views(all.take(it.index()))).malformed,
                stale == start.feed(views(all.take(it.index()))).stale,
        {
            proof {
                let fed = views(all.take(it.index()));
                let next = views(all.take(it.index() + 1));
                assert(all.take(it.index() + 1) =~= all.take(it.index()).push(sample));
                assert(next.drop_last() =~= fed);
                assert(next.last() == sample@);
            }
            let ghost before = windows@;
            match self.push(sample) {
                PushOutcome::Accepted => {
                    match self.poll_window() {
                        Some(w) => {
                            windows.push(w);
                            assert(window_views(before.push(w)) =~= window_views(before).push(
                                views(w@),
                            ));
                        },
                        None => {},
                    }
                },
                PushOutcome::Malformed => {
                    malformed += 1;
                },
                PushOutcome::Stale => {
                    stale += 1;
                },
            }
        }
        proof {
            use_type_invariant(&*self);
            assert(all.take(all.len() as int) =~= all);
        }
        FeedReport { windows, malformed, stale }
    }
}

} // verus!
