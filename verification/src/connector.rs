//! The hardware adapter contract and the connector that owns one adapter.

use vstd::prelude::*;
use std::sync::Arc;
use std::time::Duration;
use crate::clock::duration_of_millis;
use crate::sample::BciSample;

verus! {

/// The error of a failed transport operation, `std::io::Error`. Nothing is
/// claimed of what it holds: the library hands it on as it came.
#[verifier::external_type_specification]
#[verifier::external_body]
pub struct ExIoError(std::io::Error);

/// A notification from an adapter.
#[derive(Clone, Debug)]
pub enum BciEvent {
    /// The device with the given identifier is connected.
    Connected { unique_id: String },
    /// The device is gone, for the given reason.
    Disconnected { reason: String },
    /// Samples arrived, in the order of acquisition.
    SignalFrame(Vec<BciSample>),
    /// The adapter reports a fault.
    Error(String),
}

/// What every transport implements: a kernel device, a USB or radio link,
/// a simulated source.
///
/// The three predicates say which outcomes an adapter admits. An adapter
/// that leaves them as they are admits every outcome; one that is itself
/// verified may narrow them, and whoever holds it behind a
/// [`BciConnector`] then knows as much of what the connector returns.
pub trait BciAdapter: Send + Sync {
    /// Whether `outcome` is a result that `start_stream` may give.
    open spec fn start_admits(&self, outcome: Result<(), std::io::Error>) -> bool {
        true
    }

    /// Whether `outcome` is a result that `stop_stream` may give.
    open spec fn stop_admits(&self, outcome: Result<(), std::io::Error>) -> bool {
        true
    }

    /// Whether `outcome` is a result that `poll_events` may give for
    /// `timeout`.
    open spec fn poll_admits(
        &self,
        timeout: Duration,
        outcome: Result<Vec<BciEvent>, std::io::Error>,
    ) -> bool {
        true
    }

    /// Begins acquisition. A second call on a started adapter is a no-op or
    /// an error, never a device left half initialised.
    fn start_stream(&self) -> (outcome: std::io::Result<()>)
        ensures
            self.start_admits(outcome),
    ;

    /// Halts acquisition and releases what the adapter holds. Safe to call
    /// on an adapter that never started.
    fn stop_stream(&self) -> (outcome: std::io::Result<()>)
        ensures
            self.stop_admits(outcome),
    ;

    /// Waits up to `timeout` and returns the events that are ready. None
    /// within the time is an empty result, not an error.
    fn poll_events(&self, timeout: Duration) -> (outcome: std::io::Result<Vec<BciEvent>>)
        ensures
            self.poll_admits(timeout, outcome),
    ;
}

/// Metadata of a connector to a disk-class device on Windows 10.
#[derive(Clone, Debug)]
pub struct Win10DiskBasedBciConfig {
    pub pnp_class_guid: String,
    pub instance_suffix: String,
    pub kernel_device_path: String,
    pub require_unique_id: bool,
}

/// Owns a shared handle to one adapter and hides which adapter it is:
/// with `A` a trait object, callers see only the three operations.
///
/// The connector adds nothing of its own: no buffer, no retry, no
/// reconnection.
pub struct BciConnector<A: BciAdapter + ?Sized> {
    adapter: Arc<A>,
}

impl<A: BciAdapter + ?Sized> BciConnector<A> {
    /// The adapter that the connector drives.
    pub closed spec fn adapter(&self) -> Arc<A> {
        self.adapter
    }

    /// A connector on `adapter`.
    pub fn new(adapter: Arc<A>) -> (connector: Self)
        ensures
            connector.adapter() == adapter,
    {
        BciConnector { adapter }
    }

    /// Starts the adapter and returns what it returned.
    pub fn start(&self) -> (outcome: std::io::Result<()>)
        ensures
            self.adapter().start_admits(outcome),
    {
        self.adapter.start_stream()
    }

    /// Stops the adapter and returns what it returned.
    pub fn stop(&self) -> (outcome: std::io::Result<()>)
        ensures
            self.adapter().stop_admits(outcome),
    {
        self.adapter.stop_stream()
    }

    /// Polls the adapter with a timeout of `timeout_ms` milliseconds and
    /// returns what it returned.
    pub fn next_events(&self, timeout_ms: u64) -> (outcome: std::io::Result<Vec<BciEvent>>)
        ensures
            self.adapter().poll_admits(duration_of_millis(timeout_ms), outcome),
    {
        self.adapter.poll_events(Duration::from_millis(timeout_ms))
    }
}

} // verus!
