//! What holds of the windowing engine over whole runs of samples.

use vstd::prelude::*;
use crate::sample::SampleView;
use crate::window::lemma_oldest_newest_attained;
use crate::window::lemma_oldest_newest_bound;
use crate::window::lemma_oldest_newest_push;
use crate::window::lemma_snapshot_not_ready;
use crate::window::newest;
use crate::window::oldest;
use crate::window::EngineState;
use crate::window::EngineView;
use crate::window::PushOutcome;

verus! {

/// Whether a sample is well formed for `eeg_channels` EEG channels.
pub open spec fn well_formed_for(eeg_channels: nat) -> spec_fn(SampleView) -> bool {
    |s: SampleView| s.well_formed(eeg_channels)
}

/// Whether every one of `samples` is well formed for `eeg_channels` EEG
/// channels.
pub open spec fn all_well_formed(samples: Seq<SampleView>, eeg_channels: nat) -> bool {
    forall|i: int| 0 <= i < samples.len() ==> (#[trigger] samples[i]).well_formed(eeg_channels)
}

/// Whether none of `samples` is older than the first. Samples that come
/// with non-decreasing timestamps are such.
pub open spec fn none_older_than_first(samples: Seq<SampleView>) -> bool {
    forall|i: int|
        0 <= i < samples.len() ==> samples[0].timestamp_unix_ns <= (
        #[trigger] samples[i]).timestamp_unix_ns
}

/// Whether two engines have the same settings.
pub open spec fn same_settings(a: EngineView, b: EngineView) -> bool {
    &&& a.eeg_channels == b.eeg_channels
    &&& a.window_ns == b.window_ns
    &&& a.overlap_ns == b.overlap_ns
}

/// The first sample: an idle engine buffers a well-formed sample whatever
/// its timestamp, and then accumulates, since one sample spans no time.
pub proof fn lemma_first_sample_accumulates(e: EngineView, sample: SampleView)
    requires
        e.valid(),
        e.state() == EngineState::Idle,
        sample.well_formed(e.eeg_channels),
    ensures
        e.outcome(sample) == PushOutcome::Accepted,
        e.push(sample).buffer == seq![sample],
        e.push(sample).state() == EngineState::Accumulating,
{
}

/// One offered sample: an accepted sample is appended and leaves the
/// engine accumulating or ready, a dropped one leaves the engine as it was,
/// and a ready engine stays ready until its window is handed out.
pub proof fn lemma_push_transitions(e: EngineView, sample: SampleView)
    requires
        e.valid(),
    ensures
        e.push(sample).valid(),
        same_settings(e.push(sample), e),
        e.outcome(sample) == PushOutcome::Accepted ==> {
            &&& e.push(sample).buffer == e.buffer.push(sample)
            &&& e.push(sample).state() != EngineState::Idle
            &&& e.push(sample).span() >= e.span()
        },
        e.outcome(sample) != PushOutcome::Accepted ==> e.push(sample) == e,
        e.state() == EngineState::WindowReady ==> e.push(sample).state()
            == EngineState::WindowReady,
{
    lemma_oldest_newest_push(e.buffer, sample);
}

/// Offering samples and handing out windows never changes the settings,
/// and keeps a valid engine valid.
pub proof fn lemma_feed_keeps_settings(e: EngineView, samples: Seq<SampleView>)
    requires
        e.valid(),
    ensures
        same_settings(e.feed(samples).engine, e),
        e.feed(samples).engine.valid(),
        same_settings(e.push_all(samples), e),
        e.push_all(samples).valid(),
    decreases samples.len(),
{
    if samples.len() > 0 {
        lemma_feed_keeps_settings(e, samples.drop_last());
        let before = e.feed(samples.drop_last()).engine;
        lemma_snapshot_not_ready(before.push(samples.last()));
    }
}

/// A malformed sample leaves no trace: the engine and the windows are
/// those that come of the well-formed samples alone, and nothing else is
/// counted as stale.
pub proof fn lemma_malformed_samples_leave_no_trace(e: EngineView, samples: Seq<SampleView>)
    requires
        e.valid(),
    ensures
        e.feed(samples).engine == e.feed(samples.filter(well_formed_for(e.eeg_channels))).engine,
        e.feed(samples).windows == e.feed(
            samples.filter(well_formed_for(e.eeg_channels)),
        ).windows,
        e.feed(samples).stale == e.feed(samples.filter(well_formed_for(e.eeg_channels))).stale,
        e.feed(samples.filter(well_formed_for(e.eeg_channels))).malformed == 0,
        e.feed(samples).malformed == samples.len() - samples.filter(
            well_formed_for(e.eeg_channels),
        ).len(),
    decreases samples.len(),
{
    let sound = well_formed_for(e.eeg_channels);
    if samples.len() == 0 {
        assert(samples.filter(sound) =~= samples);
    } else {
        let init = samples.drop_last();
        let last = samples.last();
        lemma_malformed_samples_leave_no_trace(e, init);
        // The engine still counts the same channels, so it judges `last`
        // as `sound` does.
        lemma_feed_keeps_settings(e, init);
        assert(samples =~= init.push(last));
        init.lemma_filter_push(last, sound);
        if sound(last) {
            assert(init.filter(sound).push(last).drop_last() =~= init.filter(sound));
        }
    }
}

/// What holds of a run of samples holds of the run without its last.
proof fn lemma_shorter_run(samples: Seq<SampleView>, eeg_channels: nat)
    requires
        samples.len() > 0,
        all_well_formed(samples, eeg_channels),
        none_older_than_first(samples),
    ensures
        all_well_formed(samples.drop_last(), eeg_channels),
        none_older_than_first(samples.drop_last()),
        samples.drop_last().push(samples.last()) == samples,
        samples.len() > 1 ==> oldest(samples.drop_last()) == samples[0].timestamp_unix_ns,
        oldest(samples) == samples[0].timestamp_unix_ns,
{
    let init = samples.drop_last();
    assert forall|i: int| 0 <= i < init.len() implies (#[trigger] init[i]).well_formed(
        eeg_channels,
    ) && init[0].timestamp_unix_ns <= init[i].timestamp_unix_ns by {
        assert(init[i] == samples[i]);
        assert(init[0] == samples[0]);
    }
    assert(init.push(samples.last()) =~= samples);
    lemma_first_is_oldest(samples);
    if init.len() > 0 {
        lemma_first_is_oldest(init);
    }
}

/// Where no sample is older than the first, the first is the oldest.
pub proof fn lemma_first_is_oldest(samples: Seq<SampleView>)
    requires
        samples.len() > 0,
        none_older_than_first(samples),
    ensures
        oldest(samples) == samples[0].timestamp_unix_ns,
{
    lemma_oldest_newest_attained(samples);
    lemma_oldest_newest_bound(samples, 0);
}

/// An idle engine that is offered well-formed samples, none of them older
/// than the first, buffers them all in the order in which they came: the
/// window that is then asked for holds exactly those samples.
pub proof fn lemma_idle_engine_collects_all(e: EngineView, samples: Seq<SampleView>)
    requires
        e.valid(),
        e.buffer.len() == 0,
        all_well_formed(samples, e.eeg_channels),
        none_older_than_first(samples),
    ensures
        e.push_all(samples).buffer == samples,
    decreases samples.len(),
{
    if samples.len() == 0 {
        assert(e.buffer =~= samples);
    } else {
        lemma_shorter_run(samples, e.eeg_channels);
        lemma_idle_engine_collects_all(e, samples.drop_last());
        lemma_feed_keeps_settings(e, samples.drop_last());
    }
}

/// While the samples that an idle engine is fed span less than the window
/// duration, no window is handed out and all of them are buffered.
pub proof fn lemma_feed_below_duration_buffers_all(e: EngineView, samples: Seq<SampleView>)
    requires
        e.valid(),
        e.buffer.len() == 0,
        all_well_formed(samples, e.eeg_channels),
        none_older_than_first(samples),
        newest(samples) - oldest(samples) < e.window_ns,
    ensures
        e.feed(samples).windows.len() == 0,
        e.feed(samples).engine.buffer == samples,
        e.feed(samples).engine == e.push_all(samples),
        e.feed(samples).malformed == 0,
        e.feed(samples).stale == 0,
    decreases samples.len(),
{
    if samples.len() == 0 {
        assert(e.buffer =~= samples);
    } else {
        let init = samples.drop_last();
        lemma_shorter_run(samples, e.eeg_channels);
        // The span only grows, so the shorter run spans no more.
        lemma_oldest_newest_push(init, samples.last());
        lemma_feed_below_duration_buffers_all(e, init);
        lemma_feed_keeps_settings(e, init);
    }
}

/// Round trip of one window: an idle engine is fed well-formed samples,
/// none older than the first, of which the last is the first to bring the
/// span up to the window duration. Then exactly one window is handed out,
/// it holds all the samples in their order, and the engine goes on with the
/// overlap tail of that window.
pub proof fn lemma_round_trip_of_one_window(e: EngineView, samples: Seq<SampleView>)
    requires
        e.valid(),
        e.buffer.len() == 0,
        samples.len() > 0,
        all_well_formed(samples, e.eeg_channels),
        none_older_than_first(samples),
        newest(samples.drop_last()) - oldest(samples.drop_last()) < e.window_ns,
        newest(samples) - oldest(samples) >= e.window_ns,
    ensures
        e.feed(samples).windows == seq![samples],
        e.feed(samples).engine == e.push_all(samples).after_snapshot(),
        e.feed(samples).engine.buffer == e.push_all(samples).overlap_tail(),
        e.push_all(samples).buffer == samples,
        e.feed(samples).engine.state() != EngineState::WindowReady,
{
    let init = samples.drop_last();
    lemma_shorter_run(samples, e.eeg_channels);
    lemma_feed_below_duration_buffers_all(e, init);
    lemma_idle_engine_collects_all(e, samples);
    lemma_feed_keeps_settings(e, samples);
    lemma_snapshot_not_ready(e.push_all(samples));
    assert(e.feed(samples).windows =~= seq![samples]);
}

/// Offering samples only ever appends: what was buffered stays at the
/// front, in its order.
pub proof fn lemma_push_all_appends(e: EngineView, samples: Seq<SampleView>)
    ensures
        e.buffer.is_prefix_of(e.push_all(samples).buffer),
    decreases samples.len(),
{
    if samples.len() > 0 {
        lemma_push_all_appends(e, samples.drop_last());
    }
}

/// The first window that is handed out while samples are fed starts with
/// what was buffered before; while none is handed out, the buffer does.
pub proof fn lemma_first_window_starts_with_buffer(e: EngineView, samples: Seq<SampleView>)
    ensures
        e.feed(samples).windows.len() > 0 ==> e.buffer.is_prefix_of(e.feed(samples).windows[0]),
        e.feed(samples).windows.len() == 0 ==> e.buffer.is_prefix_of(e.feed(samples).engine.buffer),
    decreases samples.len(),
{
    if samples.len() > 0 {
        lemma_first_window_starts_with_buffer(e, samples.drop_last());
    }
}

/// Consecutive windows overlap as configured: after a window was handed
/// out, the next window starts with the overlap tail of that window,
/// whatever samples follow.
pub proof fn lemma_next_window_starts_with_overlap_tail(e: EngineView, more: Seq<SampleView>)
    ensures
        e.overlap_tail().is_prefix_of(e.after_snapshot().push_all(more).buffer),
        e.after_snapshot().feed(more).windows.len() > 0 ==> e.overlap_tail().is_prefix_of(
            e.after_snapshot().feed(more).windows[0],
        ),
{
    lemma_push_all_appends(e.after_snapshot(), more);
    lemma_first_window_starts_with_buffer(e.after_snapshot(), more);
}

} // verus!
