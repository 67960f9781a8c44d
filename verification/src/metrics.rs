use std::sync::atomic::{AtomicU64, Ordering};
use std::sync::Arc;
use vstd::prelude::*;

verus! {

/// Counters of the events that the gateway observes.
///
/// Each counter is an atomic shared by every clone of the value, so that
/// tasks holding clones count into the same totals. What a counter holds is
/// decided by all the tasks that share it, at run time; nothing is stated
/// of it here.
#[derive(Debug, Clone)]
pub struct SystemMetrics {
    pub messages_processed: Arc<AtomicU64>,
    pub batches_written: Arc<AtomicU64>,
    pub client_lag_events: Arc<AtomicU64>,
    pub backpressure_events: Arc<AtomicU64>,
    pub storage_failures: Arc<AtomicU64>,
}

impl SystemMetrics {
    /// Five fresh counters, each starting at zero.
    pub fn new() -> Self {
        SystemMetrics {
            messages_processed: Arc::new(AtomicU64::new(0)),
            batches_written: Arc::new(AtomicU64::new(0)),
            client_lag_events: Arc::new(AtomicU64::new(0)),
            backpressure_events: Arc::new(AtomicU64::new(0)),
            storage_failures: Arc::new(AtomicU64::new(0)),
        }
    }

    /// Counts one processed message (adds one, wrapping at `u64::MAX`).
    pub fn increment_messages(&self) {
        self.messages_processed.fetch_add(1, Ordering::Relaxed);
    }

    /// Counts one written batch (adds one, wrapping at `u64::MAX`).
    pub fn increment_batches(&self) {
        self.batches_written.fetch_add(1, Ordering::Relaxed);
    }

    /// Counts one client that fell behind the broadcast (adds one, wrapping
    /// at `u64::MAX`).
    pub fn increment_lag_events(&self) {
        self.client_lag_events.fetch_add(1, Ordering::Relaxed);
    }

    /// Counts one send that met a full queue (adds one, wrapping at
    /// `u64::MAX`).
    pub fn increment_backpressure(&self) {
        self.backpressure_events.fetch_add(1, Ordering::Relaxed);
    }

    /// Counts one failed storage write (adds one, wrapping at `u64::MAX`).
    pub fn increment_storage_failures(&self) {
        self.storage_failures.fetch_add(1, Ordering::Relaxed);
    }
}

} // verus!
