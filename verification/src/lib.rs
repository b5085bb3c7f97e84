//! Windowing and per-window quality metrics for multi-channel biosignal streams.
//!
//! Samples come from a hardware adapter behind a [`connector::BciConnector`],
//! are gathered into overlapping windows by a [`window::WindowingEngine`],
//! and each window is graded by [`sampler::XrBciSampler::compute_metrics`].

pub mod clock;
pub mod config;
pub mod connector;
pub mod latency;
pub mod laws;
pub mod metrics;
pub mod sample;
pub mod sampler;
pub mod session;
pub mod window;
