//! One time-stamped, multi-channel biosignal reading.

use vstd::prelude::*;

verus! {

/// Number of EMG channels in every sample.
pub const EMG_CHANNELS: usize = 4;

/// Number of EOG channels in every sample.
pub const EOG_CHANNELS: usize = 2;

/// Number of PPG channels in every sample.
pub const PPG_CHANNELS: usize = 2;

/// Number of EDA channels in every sample.
pub const EDA_CHANNELS: usize = 1;

/// One reading of all channels, stamped with the time of acquisition.
///
/// A channel value is kept as the 32-bit pattern of the single-precision
/// number that the hardware adapter delivered. The pipeline carries these
/// patterns along and never does arithmetic on them.
#[derive(Debug)]
pub struct BciSample {
    /// Time of acquisition, in nanoseconds since the Unix epoch.
    pub timestamp_unix_ns: u64,
    /// Electroencephalogram, one value per configured channel.
    pub eeg: Vec<u32>,
    /// Electromyogram, [`EMG_CHANNELS`] values.
    pub emg: Vec<u32>,
    /// Electrooculogram, [`EOG_CHANNELS`] values.
    pub eog: Vec<u32>,
    /// Photoplethysmogram, [`PPG_CHANNELS`] values.
    pub ppg: Vec<u32>,
    /// Electrodermal activity, [`EDA_CHANNELS`] values.
    pub eda: Vec<u32>,
}

/// What a [`BciSample`] holds, as mathematical sequences.
pub struct SampleView {
    pub timestamp_unix_ns: u64,
    pub eeg: Seq<u32>,
    pub emg: Seq<u32>,
    pub eog: Seq<u32>,
    pub ppg: Seq<u32>,
    pub eda: Seq<u32>,
}

impl SampleView {
    /// Whether every channel group has its fixed length, the EEG group the
    /// configured `eeg_channels`.
    pub open spec fn well_formed(self, eeg_channels: nat) -> bool {
        &&& self.eeg.len() == eeg_channels
        &&& self.emg.len() == EMG_CHANNELS
        &&& self.eog.len() == EOG_CHANNELS
        &&& self.ppg.len() == PPG_CHANNELS
        &&& self.eda.len() == EDA_CHANNELS
    }
}

impl View for BciSample {
    type V = SampleView;

    open spec fn view(&self) -> SampleView {
        SampleView {
            timestamp_unix_ns: self.timestamp_unix_ns,
            eeg: self.eeg@,
            emg: self.emg@,
            eog: self.eog@,
            ppg: self.ppg@,
            eda: self.eda@,
        }
    }
}

impl Clone for BciSample {
    fn clone(&self) -> (copy: Self)
        ensures
            copy@ == self@,
    {
        BciSample {
            timestamp_unix_ns: self.timestamp_unix_ns,
            eeg: self.eeg.clone(),
            emg: self.emg.clone(),
            eog: self.eog.clone(),
            ppg: self.ppg.clone(),
            eda: self.eda.clone(),
        }
    }
}

impl BciSample {
    /// Whether every channel group has its fixed length, the EEG group the
    /// configured `eeg_channels`.
    pub fn is_well_formed(&self, eeg_channels: usize) -> (ok: bool)
        ensures
            ok == self@.well_formed(eeg_channels as nat),
    {
        self.eeg.len() == eeg_channels && self.emg.len() == EMG_CHANNELS && self.eog.len()
            == EOG_CHANNELS && self.ppg.len() == PPG_CHANNELS && self.eda.len() == EDA_CHANNELS
    }
}

/// The views of a run of samples, in order.
pub open spec fn views(samples: Seq<BciSample>) -> Seq<SampleView> {
    samples.map_values(|s: BciSample| s@)
}

/// The timestamps of a run of samples, in order.
pub open spec fn timestamps(samples: Seq<SampleView>) -> Seq<u64> {
    samples.map_values(|s: SampleView| s.timestamp_unix_ns)
}

/// Appending a sample appends its view.
pub proof fn lemma_views_push(samples: Seq<BciSample>, sample: BciSample)
    ensures
        views(samples.push(sample)) == views(samples).push(sample@),
{
    assert(views(samples.push(sample)) =~= views(samples).push(sample@));
}

} // verus!
