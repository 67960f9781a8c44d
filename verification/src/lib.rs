//! Decision logic of a telemetry gateway: sensor devices, an aggregating
//! hub, a batching storage writer and subscribing clients.
//!
//! Each task of the gateway is written here as a state and a step function
//! from an event to the next state and an action; the runtime that waits on
//! channels, timers and semaphores drives these functions from outside.
pub mod config;
pub mod device;
pub mod health;
pub mod metrics;
pub mod types;
pub mod aggregator;
pub mod client;
pub mod pipeline;
mod random;
pub mod storage;
