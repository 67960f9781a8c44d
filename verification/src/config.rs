use vstd::prelude::*;

verus! {

/// Number of simulated sensor devices.
pub const DEVICE_COUNT: u32 = 7;

/// Number of subscribing clients.
pub const CLIENT_COUNT: u32 = 4;

/// How long the gateway runs before it shuts down, in seconds.
pub const SYSTEM_RUNTIME_SECS: u64 = 10;

/// Capacity of the device-to-aggregator queue.
pub const TELEMETRY_CHANNEL_CAPACITY: usize = 5;

/// Capacity of the aggregator-to-storage queue.
pub const STORAGE_CHANNEL_CAPACITY: usize = 2;

/// Capacity of the snapshot broadcast ring.
pub const BROADCAST_CHANNEL_CAPACITY: usize = 10;

/// Largest number of readings in one storage batch.
pub const STORAGE_BATCH_SIZE: usize = 10;

/// Number of devices that may transmit at the same time.
pub const DEVICE_BANDWIDTH_SLOTS: usize = 2;

/// Number of database connections of the storage writer.
pub const DB_CONNECTION_POOL_SIZE: usize = 1;

/// Base period between two readings of a device, in milliseconds.
pub const DEVICE_BASE_INTERVAL_MS: u64 = 300;

/// Extra period per device id, in milliseconds.
pub const DEVICE_INTERVAL_VARIANCE_MS: u64 = 50;

/// Period between two batch flushes of the aggregator, in seconds.
pub const BATCH_FLUSH_INTERVAL_SECS: u64 = 2;

/// How long a device waits before queueing for a bandwidth slot, in milliseconds.
pub const DEVICE_BACKOFF_MS: u64 = 100;

/// Period between two rounds of device health checks, in seconds.
pub const HEALTH_CHECK_INTERVAL_SECS: u64 = 3;

/// How long a health check waits for a device's answer, in milliseconds.
pub const HEALTH_CHECK_TIMEOUT_MS: u64 = 500;

/// Fewest devices queried in one round of health checks.
pub const HEALTH_CHECK_MIN_TARGETS: u64 = 2;

/// Shortest reconnect delay of a client, in milliseconds.
pub const CLIENT_RECONNECT_DELAY_BASE_MS: u64 = 500;

/// Width of the random part of a client's reconnect delay, in milliseconds.
pub const CLIENT_RECONNECT_DELAY_VARIANCE_MS: u64 = 1000;

/// Fixed cost of one storage write, in milliseconds.
pub const STORAGE_WRITE_BASE_MS: u64 = 200;

/// Cost of each record of a storage write, in milliseconds.
pub const STORAGE_WRITE_PER_RECORD_MS: u64 = 10;

} // verus!
