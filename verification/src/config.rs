//! Sampler configuration and its validation.

use vstd::prelude::*;

verus! {

/// Nanoseconds in one millisecond.
pub const NS_PER_MS: u64 = 1_000_000;

/// Settings of one sampling session.
#[derive(Clone, Copy, Debug)]
pub struct XrBciSamplerConfig {
    /// Number of EEG channels in every sample; at least one.
    pub eeg_channels: usize,
    /// Samples per second that the source delivers; at least one.
    pub sample_rate_hz: u32,
    /// Duration of a window in milliseconds; at least one.
    pub window_ms: u32,
    /// Duration that consecutive windows share, in milliseconds; below `window_ms`.
    pub overlap_ms: u32,
    /// Largest tolerable latency in nanoseconds; at least one. Advisory: it
    /// is kept for whoever grades the metrics and is not enforced here.
    pub max_latency_ns: u64,
}

/// Why a configuration is refused.
#[derive(Clone, Copy, Debug, PartialEq, Eq, Structural)]
pub enum ConfigError {
    /// `eeg_channels` is zero.
    ZeroChannels,
    /// `sample_rate_hz` is zero.
    ZeroSampleRate,
    /// `window_ms` is zero.
    ZeroWindow,
    /// `overlap_ms` is not below `window_ms`.
    OverlapNotBelowWindow,
    /// `max_latency_ns` is zero.
    ZeroMaxLatency,
}

impl XrBciSamplerConfig {
    /// The first fault of the configuration, if it has one. The faults are
    /// looked for in the order of the variants of [`ConfigError`].
    pub open spec fn fault(self) -> Option<ConfigError> {
        if self.eeg_channels == 0 {
            Some(ConfigError::ZeroChannels)
        } else if self.sample_rate_hz == 0 {
            Some(ConfigError::ZeroSampleRate)
        } else if self.window_ms == 0 {
            Some(ConfigError::ZeroWindow)
        } else if self.overlap_ms >= self.window_ms {
            Some(ConfigError::OverlapNotBelowWindow)
        } else if self.max_latency_ns == 0 {
            Some(ConfigError::ZeroMaxLatency)
        } else {
            None
        }
    }

    /// Whether the configuration has no fault.
    pub open spec fn valid(self) -> bool {
        self.fault() is None
    }

    /// Window duration in nanoseconds.
    pub open spec fn spec_window_ns(self) -> nat {
        (self.window_ms * NS_PER_MS) as nat
    }

    /// Overlap duration in nanoseconds.
    pub open spec fn spec_overlap_ns(self) -> nat {
        (self.overlap_ms * NS_PER_MS) as nat
    }

    /// Accepts the configuration, or names its first fault.
    pub fn validate(&self) -> (r: Result<(), ConfigError>)
        ensures
            match self.fault() {
                Some(e) => r == Err::<(), ConfigError>(e),
                None => r == Ok::<(), ConfigError>(()),
            },
            r is Ok <==> self.valid(),
            self.overlap_ms >= self.window_ms ==> r is Err,
            self.eeg_channels == 0 ==> r is Err,
    {
        if self.eeg_channels == 0 {
            Err(ConfigError::ZeroChannels)
        } else if self.sample_rate_hz == 0 {
            Err(ConfigError::ZeroSampleRate)
        } else if self.window_ms == 0 {
            Err(ConfigError::ZeroWindow)
        } else if self.overlap_ms >= self.window_ms {
            Err(ConfigError::OverlapNotBelowWindow)
        } else if self.max_latency_ns == 0 {
            Err(ConfigError::ZeroMaxLatency)
        } else {
            Ok(())
        }
    }

    /// Window duration in nanoseconds.
    pub fn window_ns(&self) -> (ns: u64)
        ensures
            ns == self.spec_window_ns(),
    {
        self.window_ms as u64 * NS_PER_MS
    }

    /// Overlap duration in nanoseconds.
    pub fn overlap_ns(&self) -> (ns: u64)
        ensures
            ns == self.spec_overlap_ns(),
    {
        self.overlap_ms as u64 * NS_PER_MS
    }
}

} // verus!
