use std::collections::HashMap;
use vstd::prelude::*;

verus! {

/// One reading of a sensor device.
///
/// The temperature (degrees Celsius) and the relative humidity (percent)
/// are carried as the IEEE-754 bit patterns of the `f64` readings: this
/// library moves and stores them but never does arithmetic on them.
#[derive(Debug, Clone, Copy, PartialEq, Eq, Structural)]
pub struct TelemetryData {
    pub device_id: u32,
    pub timestamp: u64,
    pub temperature_bits: u64,
    pub humidity_bits: u64,
    pub battery_level: u8,
}

/// What the aggregator knows of one device.
///
/// The running averages are carried as `f64` bit patterns, as the
/// readings of [`TelemetryData`] are.
#[derive(Debug, Clone, Copy, PartialEq, Eq, Structural)]
pub struct DeviceMetrics {
    pub device_id: u32,
    pub last_seen: u64,
    pub avg_temperature_bits: u64,
    pub avg_humidity_bits: u64,
    pub message_count: u64,
}

/// The state of the whole gateway as the aggregator last saw it.
#[derive(Debug, Clone)]
pub struct SystemSnapshot {
    pub active_devices: usize,
    pub total_messages: u64,
    pub device_metrics: HashMap<u32, DeviceMetrics>,
    pub last_update: u64,
}

impl SystemSnapshot {
    /// The snapshot before any reading: no device, no message.
    pub fn initial() -> (s: Self)
        ensures
            s.active_devices == 0,
            s.total_messages == 0,
            s.device_metrics@ == Map::<u32, DeviceMetrics>::empty(),
            s.last_update == 0,
    {
        SystemSnapshot {
            active_devices: 0,
            total_messages: 0,
            device_metrics: HashMap::new(),
            last_update: 0,
        }
    }
}

/// A group of readings handed to storage in one write.
#[derive(Debug, Clone)]
pub struct TelemetryBatch {
    pub batch_id: u64,
    pub data: Vec<TelemetryData>,
    pub created_at: u64,
}

/// The content of a [`TelemetryBatch`].
pub struct BatchModel {
    pub batch_id: nat,
    pub data: Seq<TelemetryData>,
    pub created_at: u64,
}

impl View for TelemetryBatch {
    type V = BatchModel;

    open spec fn view(&self) -> BatchModel {
        BatchModel { batch_id: self.batch_id as nat, data: self.data@, created_at: self.created_at }
    }
}

/// How a non-blocking send on a bounded queue went.
#[derive(Debug, Clone, Copy, PartialEq, Eq, Structural)]
pub enum TrySendOutcome {
    /// The queue took the message.
    Sent,
    /// The queue was full; the message came back.
    Full,
    /// The receiving side is gone.
    Closed,
}

} // verus!
