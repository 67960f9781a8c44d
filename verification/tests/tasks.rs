use telemetry_gateway::client::{client_action, client_step, reconnect_delay_ms, ClientAction, ClientEvent};
use std::sync::atomic::Ordering;
use telemetry_gateway::device::{
    initial_battery, send_interval_ms, DeviceAction, DeviceEvent, DevicePhase, DeviceState, DeviceStatus,
};
use telemetry_gateway::health::{choose_health_targets, health_check_targets};
use telemetry_gateway::metrics::SystemMetrics;
use telemetry_gateway::storage::{write_duration_ms, NextInput, StorageAction, StorageEvent, StoragePhase, StorageWriter};
use telemetry_gateway::types::{TelemetryData, TrySendOutcome};

#[test]
fn send_interval_grows_with_device_id() {
    assert_eq!(send_interval_ms(0), 300);
    assert_eq!(send_interval_ms(1), 350);
    assert_eq!(send_interval_ms(7), 650);
    assert_eq!(send_interval_ms(u32::MAX), 300 + (u32::MAX as u64) * 50);
}

#[test]
fn initial_battery_levels() {
    assert_eq!(initial_battery(0), 80);
    assert_eq!(initial_battery(19), 99);
    assert_eq!(initial_battery(20), 80);
    assert_eq!(initial_battery(255), 95);
}

#[test]
fn started_devices_have_a_battery_in_range() {
    let mut seen = std::collections::HashSet::new();
    for _ in 0..400 {
        let s = DeviceState::start(4, 1000);
        assert_eq!(s.device_id, 4);
        assert_eq!(s.start_time, 1000);
        assert_eq!(s.last_telemetry_sent, 1000);
        assert!((80..100).contains(&s.battery_level));
        seen.insert(s.battery_level);
    }
    assert!(seen.len() > 1);
}

fn granted(now: u64, drain_battery: bool, temperature_bits: u64) -> DeviceEvent {
    DeviceEvent::PermitGranted { now, drain_battery, temperature_bits, humidity_bits: 40.0f64.to_bits() }
}

#[test]
fn device_reading_carries_its_state() {
    let mut s = DeviceState::new(2, 100, 5);
    assert_eq!(s.battery_level, 85);
    assert_eq!(s.phase, DevicePhase::Idle);
    assert_eq!(s.step(DeviceEvent::Tick), DeviceAction::TryAcquirePermit);
    assert_eq!(s.phase, DevicePhase::AwaitingSlot);
    assert_eq!(s.step(DeviceEvent::PermitBusy), DeviceAction::BackOff { millis: 100 });
    let expected = TelemetryData {
        device_id: 2,
        timestamp: 130,
        temperature_bits: 25.0f64.to_bits(),
        humidity_bits: 40.0f64.to_bits(),
        battery_level: 84,
    };
    assert_eq!(s.step(granted(130, true, 25.0f64.to_bits())), DeviceAction::TrySend(expected));
    assert_eq!(s.last_telemetry_sent, 130);
    assert_eq!(s.battery_level, 84);
    assert_eq!(s.phase, DevicePhase::Sending(expected));
    assert_eq!(s.step(DeviceEvent::TrySent(TrySendOutcome::Sent)), DeviceAction::ReleasePermit);
    assert_eq!(s.phase, DevicePhase::Idle);
    s.step(DeviceEvent::Tick);
    let a = s.step(granted(140, false, 0));
    assert!(matches!(a, DeviceAction::TrySend(t) if t.battery_level == 84 && t.timestamp == 140));
}

#[test]
fn empty_battery_stays_empty() {
    let mut s = DeviceState { device_id: 1, start_time: 0, last_telemetry_sent: 0, battery_level: 0, phase: DevicePhase::AwaitingSlot };
    s.step(granted(5, true, 0));
    assert_eq!(s.battery_level, 0);
}

#[test]
fn full_queue_resends_the_same_reading() {
    let mut s = DeviceState::new(1, 0, 0);
    s.step(DeviceEvent::Tick);
    let t = match s.step(granted(9, false, 7)) {
        DeviceAction::TrySend(t) => t,
        other => panic!("unexpected {:?}", other),
    };
    assert_eq!(s.step(DeviceEvent::TrySent(TrySendOutcome::Full)), DeviceAction::WaitToSend(t));
    assert_eq!(s.step(DeviceEvent::WaitedSend { delivered: true }), DeviceAction::ReleasePermit);
    assert_eq!(s.phase, DevicePhase::Idle);
}

#[test]
fn closed_queue_releases_and_stops() {
    let mut s = DeviceState::new(1, 0, 0);
    s.step(DeviceEvent::Tick);
    s.step(granted(9, false, 7));
    assert_eq!(s.step(DeviceEvent::TrySent(TrySendOutcome::Closed)), DeviceAction::ReleaseAndStop);
    assert_eq!(s.phase, DevicePhase::Stopped);
    assert_eq!(s.step(DeviceEvent::Tick), DeviceAction::Ignore);

    let mut s = DeviceState::new(1, 0, 0);
    s.step(DeviceEvent::Tick);
    s.step(granted(9, false, 7));
    s.step(DeviceEvent::TrySent(TrySendOutcome::Full));
    assert_eq!(s.step(DeviceEvent::WaitedSend { delivered: false }), DeviceAction::ReleaseAndStop);
    assert_eq!(s.phase, DevicePhase::Stopped);
}

#[test]
fn device_stops_on_closed_slots_and_shutdown() {
    let mut s = DeviceState::new(1, 0, 0);
    s.step(DeviceEvent::Tick);
    assert_eq!(s.step(DeviceEvent::PermitClosed), DeviceAction::Stop);
    assert_eq!(s.phase, DevicePhase::Stopped);
    let mut s = DeviceState::new(1, 0, 0);
    assert_eq!(s.step(DeviceEvent::Shutdown), DeviceAction::Stop);
    assert_eq!(s.phase, DevicePhase::Stopped);
}

#[test]
fn out_of_phase_events_are_ignored() {
    let mut s = DeviceState::new(1, 0, 0);
    let before = s;
    assert_eq!(s.step(DeviceEvent::TrySent(TrySendOutcome::Sent)), DeviceAction::Ignore);
    assert_eq!(s.step(granted(3, true, 0)), DeviceAction::Ignore);
    assert_eq!(s.step(DeviceEvent::WaitedSend { delivered: true }), DeviceAction::Ignore);
    assert_eq!(s, before);
}

#[test]
fn health_check_reports_uptime() {
    let mut s = DeviceState::new(6, 1000, 10);
    s.step(DeviceEvent::Tick);
    s.step(granted(1010, false, 0));
    s.step(DeviceEvent::TrySent(TrySendOutcome::Sent));
    let expected = DeviceStatus { device_id: 6, uptime_seconds: 25, last_telemetry_sent: 1010, battery_level: 90 };
    assert_eq!(s.health_status(1025), expected);
    assert_eq!(s.step(DeviceEvent::HealthCheck { now: 1025 }), DeviceAction::Respond(expected));
}

#[test]
fn reconnect_delays() {
    assert_eq!(reconnect_delay_ms(0), 500);
    assert_eq!(reconnect_delay_ms(999), 1499);
    assert_eq!(reconnect_delay_ms(1000), 500);
    assert_eq!(reconnect_delay_ms(u64::MAX), 500 + u64::MAX % 1000);
}

#[test]
fn client_reactions() {
    assert_eq!(client_action(ClientEvent::Update { disconnect: false }, 7), ClientAction::Continue);
    assert_eq!(client_action(ClientEvent::Update { disconnect: true }, 1234), ClientAction::Reconnect { delay_ms: 734 });
    assert_eq!(client_action(ClientEvent::Lagged { missed: 20 }, 0), ClientAction::Resync);
    assert_eq!(client_action(ClientEvent::Closed, 0), ClientAction::Stop);
    assert_eq!(client_action(ClientEvent::Shutdown, 0), ClientAction::Stop);
    assert_eq!(client_step(ClientEvent::Lagged { missed: 1 }), ClientAction::Resync);
}

#[test]
fn random_reconnect_delay_in_range() {
    let mut seen = std::collections::HashSet::new();
    for _ in 0..200 {
        match client_step(ClientEvent::Update { disconnect: true }) {
            ClientAction::Reconnect { delay_ms } => {
                assert!((500..1500).contains(&delay_ms));
                seen.insert(delay_ms);
            }
            other => panic!("unexpected {:?}", other),
        }
    }
    assert!(seen.len() > 1);
}

#[test]
fn storage_write_durations() {
    assert_eq!(write_duration_ms(0), 200);
    assert_eq!(write_duration_ms(1), 210);
    assert_eq!(write_duration_ms(10), 300);
}

#[test]
fn storage_writes_with_a_connection() {
    let mut w = StorageWriter::new();
    assert_eq!(w.step(StorageEvent::Batch { record_count: 3 }), StorageAction::TryAcquireConnection);
    assert_eq!(w.phase, StoragePhase::Acquiring { record_count: 3 });
    assert_eq!(w.step(StorageEvent::ConnectionBusy), StorageAction::WaitForConnection);
    assert_eq!(w.step(StorageEvent::ConnectionReady), StorageAction::Write { duration_ms: 230 });
    assert_eq!(w.phase, StoragePhase::Writing);
    assert_eq!(w.step(StorageEvent::Written { failed: true }), StorageAction::Report { failed: true, next: NextInput::Listen });
    assert_eq!(w.phase, StoragePhase::Idle);
    w.step(StorageEvent::Batch { record_count: 0 });
    w.step(StorageEvent::ConnectionReady);
    assert_eq!(w.step(StorageEvent::Written { failed: false }), StorageAction::Report { failed: false, next: NextInput::Listen });
}

#[test]
fn storage_drains_before_stopping() {
    let mut w = StorageWriter::new();
    assert_eq!(w.step(StorageEvent::QueueClosed), StorageAction::Ignore);
    assert_eq!(w.step(StorageEvent::Shutdown), StorageAction::Drain);
    assert!(w.draining);
    assert_eq!(w.phase, StoragePhase::Idle);
    assert_eq!(w.step(StorageEvent::Batch { record_count: 2 }), StorageAction::TryAcquireConnection);
    w.step(StorageEvent::ConnectionReady);
    assert_eq!(w.step(StorageEvent::Written { failed: false }), StorageAction::Report { failed: false, next: NextInput::Drain });
    assert_eq!(w.step(StorageEvent::Shutdown), StorageAction::Ignore);
    assert_eq!(w.step(StorageEvent::QueueClosed), StorageAction::Stop);
    assert_eq!(w.phase, StoragePhase::Stopped);
    assert_eq!(w.step(StorageEvent::Batch { record_count: 1 }), StorageAction::Ignore);
}

#[test]
fn metrics_start_at_zero_and_count() {
    let m = SystemMetrics::new();
    m.increment_messages();
    m.increment_messages();
    m.increment_batches();
    m.increment_lag_events();
    m.increment_backpressure();
    m.increment_storage_failures();
    m.increment_storage_failures();
    assert_eq!(m.messages_processed.load(Ordering::Relaxed), 2);
    assert_eq!(m.batches_written.load(Ordering::Relaxed), 1);
    assert_eq!(m.client_lag_events.load(Ordering::Relaxed), 1);
    assert_eq!(m.backpressure_events.load(Ordering::Relaxed), 1);
    assert_eq!(m.storage_failures.load(Ordering::Relaxed), 2);
}

#[test]
fn metrics_clones_share_counters() {
    let m = SystemMetrics::new();
    let c = m.clone();
    c.increment_lag_events();
    c.increment_lag_events();
    assert_eq!(m.client_lag_events.load(Ordering::Relaxed), 2);
    assert_eq!(m.messages_processed.load(Ordering::Relaxed), 0);
    m.increment_batches();
    assert_eq!(c.batches_written.load(Ordering::Relaxed), 1);
}

#[test]
fn metrics_counters_wrap() {
    let m = SystemMetrics::new();
    m.messages_processed.store(u64::MAX, Ordering::Relaxed);
    m.increment_messages();
    assert_eq!(m.messages_processed.load(Ordering::Relaxed), 0);
    assert_eq!(m.batches_written.load(Ordering::Relaxed), 0);
}

#[test]
fn battery_drops_by_one_only_on_drain() {
    let mut s = DeviceState::new(3, 0, 0);
    let mut levels = Vec::new();
    for (i, drain) in [true, false, true, true, false].iter().enumerate() {
        s.step(DeviceEvent::Tick);
        match s.step(granted(i as u64, *drain, 0)) {
            DeviceAction::TrySend(t) => levels.push(t.battery_level),
            other => panic!("unexpected {:?}", other),
        }
        s.step(DeviceEvent::TrySent(TrySendOutcome::Sent));
    }
    assert_eq!(levels, vec![79, 79, 78, 77, 77]);
}

#[test]
fn health_targets_from_a_roll() {
    assert_eq!(health_check_targets(7, 0), vec![1, 2]);
    assert_eq!(health_check_targets(7, 1), vec![1, 2, 3]);
    assert_eq!(health_check_targets(7, 12), vec![7, 1]);
    assert_eq!(health_check_targets(7, 13), vec![7, 1, 2]);
    assert_eq!(health_check_targets(2, 1), vec![1, 2]);
    assert_eq!(health_check_targets(1, 1), vec![1]);
    assert!(health_check_targets(0, 5).is_empty());
}

#[test]
fn random_health_targets_are_distinct_devices() {
    for _ in 0..200 {
        let ids = choose_health_targets(7);
        assert!(ids.len() == 2 || ids.len() == 3);
        assert!(ids.iter().all(|id| (1..=7).contains(id)));
        let unique: std::collections::HashSet<u32> = ids.iter().copied().collect();
        assert_eq!(unique.len(), ids.len());
    }
}
