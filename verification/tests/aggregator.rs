use telemetry_gateway::aggregator::{
    batch_send_action, Aggregator, AggregatorAction, AggregatorEvent, AverageBasis, BatchSendAction,
};
use telemetry_gateway::types::{SystemSnapshot, TelemetryData, TrySendOutcome};

fn reading(device_id: u32, timestamp: u64, temperature: f64) -> TelemetryData {
    TelemetryData {
        device_id,
        timestamp,
        temperature_bits: temperature.to_bits(),
        humidity_bits: (temperature + 30.0).to_bits(),
        battery_level: 90,
    }
}

#[test]
fn new_aggregator_is_empty() {
    let a = Aggregator::new();
    assert_eq!(a.total_messages(), 0);
    assert_eq!(a.buffered(), 0);
    assert_eq!(a.last_batch_id(), 0);
    assert_eq!(a.device(1), None);
}

#[test]
fn basis_of_new_device_is_its_reading() {
    let a = Aggregator::new();
    let t = reading(3, 100, 21.5);
    assert_eq!(
        a.average_basis(&t),
        AverageBasis { temperature_bits: t.temperature_bits, humidity_bits: t.humidity_bits, count: 0 }
    );
}

#[test]
fn processing_counts_and_updates_device() {
    let mut a = Aggregator::new();
    let t1 = reading(3, 100, 20.0);
    let s1 = a.process_telemetry(t1, 20.0f64.to_bits(), 50.0f64.to_bits(), 1000);
    assert_eq!(s1.active_devices, 1);
    assert_eq!(s1.total_messages, 1);
    assert_eq!(s1.last_update, 1000);
    let d = s1.device_metrics[&3];
    assert_eq!(d.device_id, 3);
    assert_eq!(d.last_seen, 100);
    assert_eq!(d.message_count, 1);
    assert_eq!(f64::from_bits(d.avg_temperature_bits), 20.0);

    let t2 = reading(3, 105, 22.0);
    let basis = a.average_basis(&t2);
    assert_eq!(basis.count, 1);
    assert_eq!(f64::from_bits(basis.temperature_bits), 20.0);
    let s2 = a.process_telemetry(t2, 21.0f64.to_bits(), 51.0f64.to_bits(), 1001);
    assert_eq!(s2.active_devices, 1);
    assert_eq!(s2.total_messages, 2);
    let d = a.device(3).unwrap();
    assert_eq!(d.message_count, 2);
    assert_eq!(d.last_seen, 105);
    assert_eq!(f64::from_bits(d.avg_temperature_bits), 21.0);

    let s3 = a.process_telemetry(reading(5, 106, 30.0), 30.0f64.to_bits(), 60.0f64.to_bits(), 1002);
    assert_eq!(s3.active_devices, 2);
    assert_eq!(s3.total_messages, 3);
    assert_eq!(a.device(5).unwrap().message_count, 1);
    assert_eq!(a.device(3).unwrap().message_count, 2);
    assert_eq!(a.buffered(), 3);
}

#[test]
fn flush_of_empty_buffer_takes_nothing() {
    let mut a = Aggregator::new();
    assert!(a.take_batch(7).is_none());
    assert_eq!(a.last_batch_id(), 0);
}

#[test]
fn flush_takes_every_reading_in_order() {
    let mut a = Aggregator::new();
    let ts: Vec<TelemetryData> = (0..4).map(|i| reading(i % 2, 100 + i as u64, 20.0 + i as f64)).collect();
    for t in &ts {
        a.process_telemetry(*t, t.temperature_bits, t.humidity_bits, 0);
    }
    let b = a.take_batch(55).unwrap();
    assert_eq!(b.batch_id, 1);
    assert_eq!(b.created_at, 55);
    assert_eq!(b.data, ts);
    assert_eq!(a.buffered(), 0);
    assert!(a.take_batch(56).is_none());
    assert_eq!(a.total_messages(), 4);
}

#[test]
fn no_reading_lost_across_batches() {
    let mut a = Aggregator::new();
    let mut sent = Vec::new();
    let mut delivered = Vec::new();
    let mut ids = Vec::new();
    for i in 0..10u64 {
        let t = reading((i % 3) as u32, i, i as f64);
        sent.push(t);
        a.process_telemetry(t, t.temperature_bits, t.humidity_bits, i);
        if i % 4 == 3 {
            let b = a.take_batch(i).unwrap();
            ids.push(b.batch_id);
            delivered.extend(b.data);
        }
    }
    let last = a.take_batch(99).unwrap();
    ids.push(last.batch_id);
    delivered.extend(last.data);
    assert_eq!(delivered, sent);
    assert_eq!(ids, vec![1, 2, 3]);
    assert_eq!(a.device(0).unwrap().message_count, 4);
    assert_eq!(a.device(1).unwrap().message_count, 3);
    assert_eq!(a.device(2).unwrap().message_count, 3);
}

#[test]
fn step_publishes_stores_and_finishes() {
    let mut a = Aggregator::new();
    assert!(matches!(a.step(AggregatorEvent::FlushTimer { now: 1 }), AggregatorAction::Idle));
    let t = reading(1, 10, 19.0);
    match a.step(AggregatorEvent::Telemetry {
        telemetry: t,
        avg_temperature_bits: t.temperature_bits,
        avg_humidity_bits: t.humidity_bits,
        now: 11,
    }) {
        AggregatorAction::Publish(s) => {
            assert_eq!(s.total_messages, 1);
            assert_eq!(s.active_devices, 1);
            assert_eq!(s.last_update, 11);
        }
        _ => panic!("expected a snapshot"),
    }
    match a.step(AggregatorEvent::FlushTimer { now: 12 }) {
        AggregatorAction::Store(b) => {
            assert_eq!(b.batch_id, 1);
            assert_eq!(b.data, vec![t]);
        }
        _ => panic!("expected a batch"),
    }
    a.step(AggregatorEvent::Telemetry {
        telemetry: t,
        avg_temperature_bits: t.temperature_bits,
        avg_humidity_bits: t.humidity_bits,
        now: 13,
    });
    match a.step(AggregatorEvent::Shutdown { now: 14 }) {
        AggregatorAction::Finish(bs) => {
            assert_eq!(bs.len(), 1);
            assert_eq!(bs[0].batch_id, 2);
            assert_eq!(bs[0].created_at, 14);
        }
        _ => panic!("expected a final batch"),
    }
    assert!(matches!(a.step(AggregatorEvent::Shutdown { now: 15 }), AggregatorAction::Finish(bs) if bs.is_empty()));
}

#[test]
fn batch_send_outcomes() {
    assert_eq!(batch_send_action(TrySendOutcome::Sent), BatchSendAction::Delivered);
    assert_eq!(batch_send_action(TrySendOutcome::Full), BatchSendAction::WaitForRoom);
    assert_eq!(batch_send_action(TrySendOutcome::Closed), BatchSendAction::ReportClosed);
}

#[test]
fn initial_snapshot_is_empty() {
    let s = SystemSnapshot::initial();
    assert_eq!(s.active_devices, 0);
    assert_eq!(s.total_messages, 0);
    assert!(s.device_metrics.is_empty());
    assert_eq!(s.last_update, 0);
}

#[test]
fn total_is_sum_of_device_counts() {
    let mut a = Aggregator::new();
    let mut last = SystemSnapshot::initial();
    for i in 0..9u64 {
        let t = reading((i * 7 % 4) as u32, i, i as f64);
        last = a.process_telemetry(t, t.temperature_bits, t.humidity_bits, i);
    }
    let sum: u64 = last.device_metrics.values().map(|d| d.message_count).sum();
    assert_eq!(sum, last.total_messages);
    assert_eq!(last.total_messages, 9);
    assert_eq!(last.active_devices, 4);
}

#[test]
fn batches_hold_at_most_ten_readings() {
    let mut a = Aggregator::new();
    let ts: Vec<TelemetryData> = (0..11u64).map(|i| reading(1, i, i as f64)).collect();
    for t in &ts {
        a.process_telemetry(*t, t.temperature_bits, t.humidity_bits, 0);
    }
    let first = a.take_batch(1).unwrap();
    assert_eq!(first.batch_id, 1);
    assert_eq!(first.data, ts[..10].to_vec());
    assert_eq!(a.buffered(), 1);
    let second = a.take_batch(2).unwrap();
    assert_eq!(second.batch_id, 2);
    assert_eq!(second.data, ts[10..].to_vec());
    assert!(a.take_batch(3).is_none());
}

#[test]
fn shutdown_flushes_everything_in_capped_batches() {
    let mut a = Aggregator::new();
    let ts: Vec<TelemetryData> = (0..25u64).map(|i| reading((i % 3) as u32, i, i as f64)).collect();
    for t in &ts {
        a.process_telemetry(*t, t.temperature_bits, t.humidity_bits, 0);
    }
    match a.step(AggregatorEvent::Shutdown { now: 9 }) {
        AggregatorAction::Finish(bs) => {
            let sizes: Vec<usize> = bs.iter().map(|b| b.data.len()).collect();
            assert_eq!(sizes, vec![10, 10, 5]);
            let ids: Vec<u64> = bs.iter().map(|b| b.batch_id).collect();
            assert_eq!(ids, vec![1, 2, 3]);
            let all: Vec<TelemetryData> = bs.into_iter().flat_map(|b| b.data).collect();
            assert_eq!(all, ts);
        }
        _ => panic!("expected the final batches"),
    }
    assert_eq!(a.buffered(), 0);
}
