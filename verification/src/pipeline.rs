use crate::aggregator::{basis_of, batch_len, device_count, flush_all, total_count, flushed, initial_model, lemma_flushed_wf, lemma_processed_wf, model_wf, processed, AggregatorModel};
use crate::config::STORAGE_BATCH_SIZE;
use crate::aggregator::AverageBasis;
use crate::types::{BatchModel, TelemetryData};
use vstd::prelude::*;

verus! {

/// One operation on the aggregator, as its runtime issues them.
pub enum AggregatorOp {
    /// Process a reading with the given updated averages.
    Process { telemetry: TelemetryData, avg_temperature_bits: u64, avg_humidity_bits: u64 },
    /// Take a batch at time `now`.
    Flush { now: u64 },
}

/// The aggregator after one operation, and the batches it emitted (none or one).
pub open spec fn applied(m: AggregatorModel, op: AggregatorOp) -> (AggregatorModel, Seq<BatchModel>) {
    match op {
        AggregatorOp::Process { telemetry, avg_temperature_bits, avg_humidity_bits } => (
            processed(m, telemetry, avg_temperature_bits, avg_humidity_bits),
            Seq::empty(),
        ),
        AggregatorOp::Flush { now } => {
            let (m1, b) = flushed(m, now);
            (
                m1,
                match b {
                    Some(b) => seq![b],
                    None => Seq::empty(),
                },
            )
        },
    }
}

/// The aggregator after a sequence of operations, and every batch emitted
/// on the way, in order.
pub open spec fn run(m: AggregatorModel, ops: Seq<AggregatorOp>) -> (AggregatorModel, Seq<BatchModel>)
    decreases ops.len(),
{
    if ops.len() == 0 {
        (m, Seq::empty())
    } else {
        let (m1, bs) = run(m, ops.drop_last());
        let (m2, b) = applied(m1, ops.last());
        (m2, bs + b)
    }
}

/// The readings that a sequence of operations processes, in order.
pub open spec fn readings(ops: Seq<AggregatorOp>) -> Seq<TelemetryData>
    decreases ops.len(),
{
    if ops.len() == 0 {
        Seq::empty()
    } else {
        readings(ops.drop_last()) + match ops.last() {
            AggregatorOp::Process { telemetry, .. } => seq![telemetry],
            AggregatorOp::Flush { .. } => Seq::empty(),
        }
    }
}

/// The readings that a sequence of batches carries, batch after batch.
pub open spec fn delivered(bs: Seq<BatchModel>) -> Seq<TelemetryData>
    decreases bs.len(),
{
    if bs.len() == 0 {
        Seq::empty()
    } else {
        delivered(bs.drop_last()) + bs.last().data
    }
}

/// How many of the readings come from device `id`.
pub open spec fn readings_from(rs: Seq<TelemetryData>, id: u32) -> nat
    decreases rs.len(),
{
    if rs.len() == 0 {
        0
    } else {
        readings_from(rs.drop_last(), id) + if rs.last().device_id == id { 1nat } else { 0 }
    }
}

/// The latest of the readings that comes from device `id`, if any.
pub open spec fn latest_from(rs: Seq<TelemetryData>, id: u32) -> Option<TelemetryData>
    decreases rs.len(),
{
    if rs.len() == 0 {
        None
    } else if rs.last().device_id == id {
        Some(rs.last())
    } else {
        latest_from(rs.drop_last(), id)
    }
}

proof fn lemma_delivered_append(bs: Seq<BatchModel>, more: Seq<BatchModel>)
    requires
        more.len() <= 1,
    ensures
        delivered(bs + more) == delivered(bs) + if more.len() == 1 { more[0].data } else { Seq::empty() },
{
    if more.len() == 0 {
        assert(bs + more =~= bs);
        assert(delivered(bs) + Seq::<TelemetryData>::empty() =~= delivered(bs));
    } else {
        assert((bs + more).drop_last() =~= bs);
    }
}

proof fn lemma_readings_from_push(rs: Seq<TelemetryData>, t: TelemetryData, id: u32)
    ensures
        readings_from(rs.push(t), id) == readings_from(rs, id) + if t.device_id == id { 1nat } else { 0 },
{
    assert(rs.push(t).drop_last() =~= rs);
}

/// Everything that holds of a run, proved together by induction.
proof fn lemma_run(m: AggregatorModel, ops: Seq<AggregatorOp>)
    requires
        model_wf(m),
        m.total_messages + ops.len() <= u64::MAX,
    ensures
        ({
            let (m2, bs) = run(m, ops);
            &&& model_wf(m2)
            &&& m2.total_messages == m.total_messages + readings(ops).len()
            &&& readings(ops).len() <= ops.len()
            &&& delivered(bs) + m2.buffer == m.buffer + readings(ops)
            &&& m2.batch_id == m.batch_id + bs.len()
            &&& forall|i: int| 0 <= i < bs.len() ==> #[trigger] bs[i].batch_id == m.batch_id + i + 1
            &&& forall|i: int| 0 <= i < bs.len() ==> #[trigger] bs[i].data.len() > 0
            &&& forall|i: int| 0 <= i < bs.len() ==> #[trigger] bs[i].data.len() <= STORAGE_BATCH_SIZE
            &&& forall|id: u32| #[trigger] device_count(m2, id) == device_count(m, id) + readings_from(readings(ops), id)
            &&& forall|id: u32| #[trigger] m2.devices.contains_key(id) <==> (m.devices.contains_key(id) || readings_from(readings(ops), id) > 0)
        }),
    decreases ops.len(),
{
    if ops.len() == 0 {
        assert(m.buffer + Seq::<TelemetryData>::empty() =~= m.buffer);
        assert(Seq::<TelemetryData>::empty() + m.buffer =~= m.buffer);
    } else {
        let prev = ops.drop_last();
        lemma_run(m, prev);
        let (m1, bs1) = run(m, prev);
        let (m2, b) = applied(m1, ops.last());
        assert(run(m, ops) == (m2, bs1 + b));
        lemma_delivered_append(bs1, b);
        match ops.last() {
            AggregatorOp::Process { telemetry, avg_temperature_bits, avg_humidity_bits } => {
                lemma_processed_wf(m1, telemetry, avg_temperature_bits, avg_humidity_bits);
                assert(readings(ops) == readings(prev) + seq![telemetry]);
                assert(readings(prev) + seq![telemetry] =~= readings(prev).push(telemetry));
                assert(bs1 + b =~= bs1);
                assert(m2.buffer =~= m1.buffer.push(telemetry));
                assert(delivered(bs1) + m2.buffer =~= (delivered(bs1) + m1.buffer).push(telemetry));
                assert(m.buffer + readings(ops) =~= (m.buffer + readings(prev)).push(telemetry));
                assert(m1.total_messages < u64::MAX);
                assert forall|id: u32| #[trigger] device_count(m2, id) == device_count(m, id) + readings_from(readings(ops), id) by {
                    lemma_readings_from_push(readings(prev), telemetry, id);
                    if id == telemetry.device_id {
                        assert(device_count(m1, id) <= m1.total_messages);
                    }
                }
                assert forall|id: u32| #[trigger] m2.devices.contains_key(id) <==> (m.devices.contains_key(id) || readings_from(readings(ops), id) > 0) by {
                    lemma_readings_from_push(readings(prev), telemetry, id);
                    assert(device_count(m2, id) == device_count(m, id) + readings_from(readings(ops), id));
                    assert(device_count(m1, id) == device_count(m, id) + readings_from(readings(prev), id));
                    assert(m1.devices.contains_key(id) ==> device_count(m1, id) >= 1);
                    assert(m.devices.contains_key(id) ==> device_count(m, id) >= 1);
                }
            },
            AggregatorOp::Flush { now } => {
                lemma_flushed_wf(m1, now);
                assert(readings(ops) =~= readings(prev));
                assert(m2.devices == m1.devices);
                assert forall|id: u32| #[trigger] device_count(m2, id) == device_count(m, id) + readings_from(readings(ops), id) by {
                    assert(device_count(m1, id) == device_count(m, id) + readings_from(readings(prev), id));
                }
                if m1.buffer.len() == 0 {
                    assert(bs1 + b =~= bs1);
                    assert(delivered(bs1) + m2.buffer =~= delivered(bs1) + m1.buffer);
                } else {
                    assert(b.len() == 1);
                    assert(b[0].data == m1.buffer.take(batch_len(m1)));
                    assert(b[0].data.len() <= STORAGE_BATCH_SIZE);
                    assert((bs1 + b)[bs1.len() as int] == b[0]);
                    assert(m1.buffer.take(batch_len(m1)) + m1.buffer.skip(batch_len(m1)) =~= m1.buffer);
                    assert(delivered(bs1) + b[0].data + m2.buffer =~= delivered(bs1) + m1.buffer);
                    assert forall|i: int| 0 <= i < (bs1 + b).len() implies #[trigger] (bs1 + b)[i].batch_id == m.batch_id + i + 1 by {
                        if i < bs1.len() {
                            assert((bs1 + b)[i] == bs1[i]);
                        }
                    }
                    assert forall|i: int| 0 <= i < (bs1 + b).len() implies #[trigger] (bs1 + b)[i].data.len() > 0 by {
                        if i < bs1.len() {
                            assert((bs1 + b)[i] == bs1[i]);
                        }
                    }
                    assert forall|i: int| 0 <= i < (bs1 + b).len() implies #[trigger] (bs1 + b)[i].data.len() <= STORAGE_BATCH_SIZE by {
                        if i < bs1.len() {
                            assert((bs1 + b)[i] == bs1[i]);
                            assert(bs1[i].data.len() <= STORAGE_BATCH_SIZE);
                        } else {
                            assert((bs1 + b)[i] == b[0]);
                        }
                    }
                }
            },
        }
    }
}

/// Each device's entry shows the time of its latest reading, and the entry
/// of a device that sent nothing stays as it was.
pub proof fn law_last_seen(m: AggregatorModel, ops: Seq<AggregatorOp>)
    ensures
        forall|id: u32| #[trigger] latest_from(readings(ops), id) matches Some(t) ==> {
            &&& run(m, ops).0.devices.contains_key(id)
            &&& run(m, ops).0.devices[id].last_seen == t.timestamp
        },
        forall|id: u32| #[trigger] latest_from(readings(ops), id) is None ==> {
            &&& run(m, ops).0.devices.contains_key(id) == m.devices.contains_key(id)
            &&& m.devices.contains_key(id) ==> run(m, ops).0.devices[id] == m.devices[id]
        },
    decreases ops.len(),
{
    if ops.len() > 0 {
        let prev = ops.drop_last();
        law_last_seen(m, prev);
        let (m1, bs1) = run(m, prev);
        let (m2, b) = applied(m1, ops.last());
        assert(run(m, ops).0 == m2);
        match ops.last() {
            AggregatorOp::Process { telemetry, .. } => {
                assert(readings(ops) =~= readings(prev).push(telemetry));
                assert(readings(prev).push(telemetry).drop_last() =~= readings(prev));
                assert forall|id: u32| #[trigger] latest_from(readings(ops), id) == if telemetry.device_id == id {
                    Some(telemetry)
                } else {
                    latest_from(readings(prev), id)
                } by {}
                assert forall|id: u32| latest_from(readings(ops), id) is None implies #[trigger] latest_from(readings(prev), id) is None by {}
            },
            AggregatorOp::Flush { now } => {
                assert(readings(ops) =~= readings(prev));
                assert(m2.devices == m1.devices);
            },
        }
    }
}

/// No reading is lost or reordered: the readings carried by the batches a
/// run emits, followed by the readings still buffered, are exactly the
/// readings buffered before the run followed by the readings it processed;
/// and every batch holds between one and [`STORAGE_BATCH_SIZE`] readings.
pub proof fn law_no_reading_lost(m: AggregatorModel, ops: Seq<AggregatorOp>)
    requires
        model_wf(m),
        m.total_messages + ops.len() <= u64::MAX,
    ensures
        delivered(run(m, ops).1) + run(m, ops).0.buffer == m.buffer + readings(ops),
        forall|i: int| 0 <= i < run(m, ops).1.len() ==> #[trigger] run(m, ops).1[i].data.len() > 0,
        forall|i: int| 0 <= i < run(m, ops).1.len() ==> #[trigger] run(m, ops).1[i].data.len() <= STORAGE_BATCH_SIZE,
{
    lemma_run(m, ops);
}

/// Batches are numbered one after another: the i-th batch a run emits has
/// the id that followed the last batch before the run by i + 1, and the
/// aggregator remembers the id of the last one.
pub proof fn law_batch_ids_consecutive(m: AggregatorModel, ops: Seq<AggregatorOp>)
    requires
        model_wf(m),
        m.total_messages + ops.len() <= u64::MAX,
    ensures
        forall|i: int| 0 <= i < run(m, ops).1.len() ==> #[trigger] run(m, ops).1[i].batch_id == m.batch_id + i + 1,
        run(m, ops).0.batch_id == m.batch_id + run(m, ops).1.len(),
{
    lemma_run(m, ops);
}

/// Every processed reading is counted once, in the total and in its
/// device's entry, and a device has an entry exactly when it sent a
/// reading; the invariant holds after any run.
pub proof fn law_message_counts(m: AggregatorModel, ops: Seq<AggregatorOp>)
    requires
        model_wf(m),
        m.total_messages + ops.len() <= u64::MAX,
    ensures
        model_wf(run(m, ops).0),
        run(m, ops).0.total_messages == m.total_messages + readings(ops).len(),
        forall|id: u32| #[trigger] device_count(run(m, ops).0, id) == device_count(m, id) + readings_from(readings(ops), id),
        forall|id: u32| #[trigger] run(m, ops).0.devices.contains_key(id) <==> (m.devices.contains_key(id) || readings_from(readings(ops), id) > 0),
{
    lemma_run(m, ops);
}

/// Starting from a fresh aggregator, the devices known are exactly those
/// that sent a reading, each with the number of readings it sent.
pub proof fn law_fresh_counts(ops: Seq<AggregatorOp>)
    requires
        ops.len() <= u64::MAX,
    ensures
        forall|id: u32| #[trigger] run(initial_model(), ops).0.devices.contains_key(id) <==> readings_from(readings(ops), id) > 0,
        forall|id: u32| #[trigger] device_count(run(initial_model(), ops).0, id) == readings_from(readings(ops), id),
        run(initial_model(), ops).0.total_messages == readings(ops).len(),
{
    assert(model_wf(initial_model())) by {
        assert(initial_model().devices =~= Map::<u32, crate::types::DeviceMetrics>::empty());
        assert(total_count(initial_model().devices) == 0);
    }
    lemma_run(initial_model(), ops);
}

/// The total number of messages is the sum of the message counts of all
/// devices, in every aggregator.
pub proof fn law_total_is_sum_of_device_counts(m: AggregatorModel)
    requires
        model_wf(m),
    ensures
        m.total_messages == total_count(m.devices),
{
}

/// When no more than a batch's worth of readings is buffered, a flush
/// takes them all, and a flush right after it takes nothing and changes
/// nothing.
pub proof fn law_flush_twice(m: AggregatorModel, first: u64, second: u64)
    requires
        m.buffer.len() <= STORAGE_BATCH_SIZE,
    ensures
        flushed(flushed(m, first).0, second).1 is None,
        flushed(flushed(m, first).0, second).0 == flushed(m, first).0,
{
}

/// A reading processed and then flushed, while the batch has room for it,
/// leaves in the next batch, as the last reading of it, with everything
/// buffered before it.
pub proof fn law_process_then_flush(
    m: AggregatorModel,
    t: TelemetryData,
    avg_temperature_bits: u64,
    avg_humidity_bits: u64,
    now: u64,
)
    requires
        m.buffer.len() < STORAGE_BATCH_SIZE,
    ensures
        flushed(processed(m, t, avg_temperature_bits, avg_humidity_bits), now).1 == Some(
            BatchModel { batch_id: m.batch_id + 1, data: m.buffer.push(t), created_at: now },
        ),
        flushed(processed(m, t, avg_temperature_bits, avg_humidity_bits), now).0.buffer.len() == 0,
{
    let m1 = processed(m, t, avg_temperature_bits, avg_humidity_bits);
    assert(m1.buffer.take(batch_len(m1)) =~= m1.buffer);
}

/// A batch never holds more than [`STORAGE_BATCH_SIZE`] readings, and the
/// readings it leaves behind stay buffered, oldest first.
pub proof fn law_batch_size_capped(m: AggregatorModel, now: u64)
    ensures
        flushed(m, now).1 matches Some(b) ==> {
            &&& 0 < b.data.len() <= STORAGE_BATCH_SIZE
            &&& b.data + flushed(m, now).0.buffer == m.buffer
            &&& (m.buffer.len() > STORAGE_BATCH_SIZE ==> b.data.len() == STORAGE_BATCH_SIZE)
        },
{
    if m.buffer.len() > 0 {
        assert(m.buffer.take(batch_len(m)) + m.buffer.skip(batch_len(m)) =~= m.buffer);
    }
}

proof fn lemma_delivered_prepend(b: BatchModel, bs: Seq<BatchModel>)
    ensures
        delivered(seq![b] + bs) == b.data + delivered(bs),
    decreases bs.len(),
{
    if bs.len() == 0 {
        assert(seq![b] + bs =~= seq![b]);
        assert(seq![b].drop_last() =~= Seq::<BatchModel>::empty());
        assert(delivered(Seq::<BatchModel>::empty()) == Seq::<TelemetryData>::empty());
        assert(delivered(seq![b]) == delivered(seq![b].drop_last()) + seq![b].last().data);
        assert(Seq::<TelemetryData>::empty() + b.data =~= b.data);
        assert(b.data + Seq::<TelemetryData>::empty() =~= b.data);
        assert(delivered(bs) == Seq::<TelemetryData>::empty());
    } else {
        lemma_delivered_prepend(b, bs.drop_last());
        assert((seq![b] + bs).drop_last() =~= seq![b] + bs.drop_last());
        assert((seq![b] + bs).last() == bs.last());
        assert(b.data + delivered(bs.drop_last()) + bs.last().data =~= b.data + (delivered(bs.drop_last()) + bs.last().data));
    }
}

/// At shutdown every buffered reading leaves: flushing until nothing is
/// buffered emits batches that carry exactly the buffered readings, in
/// order, each holding between one and [`STORAGE_BATCH_SIZE`] readings and
/// numbered one after another; counts and devices stay as they were.
pub proof fn law_shutdown_flushes_everything(m: AggregatorModel, now: u64)
    requires
        model_wf(m),
    ensures
        model_wf(flush_all(m, now).0),
        flush_all(m, now).0.buffer.len() == 0,
        flush_all(m, now).0.devices == m.devices,
        flush_all(m, now).0.total_messages == m.total_messages,
        delivered(flush_all(m, now).1) == m.buffer,
        flush_all(m, now).0.batch_id == m.batch_id + flush_all(m, now).1.len(),
        forall|i: int| 0 <= i < flush_all(m, now).1.len() ==> {
            &&& #[trigger] flush_all(m, now).1[i].batch_id == m.batch_id + i + 1
            &&& 0 < flush_all(m, now).1[i].data.len() <= STORAGE_BATCH_SIZE
            &&& flush_all(m, now).1[i].created_at == now
        },
    decreases m.buffer.len(),
{
    if m.buffer.len() == 0 {
        assert(delivered(Seq::<BatchModel>::empty()) =~= m.buffer);
    } else {
        let next = flushed(m, now);
        lemma_flushed_wf(m, now);
        law_shutdown_flushes_everything(next.0, now);
        let b = next.1.unwrap();
        let rest = flush_all(next.0, now).1;
        lemma_delivered_prepend(b, rest);
        assert(m.buffer.take(batch_len(m)) + m.buffer.skip(batch_len(m)) =~= m.buffer);
        assert forall|i: int| 0 <= i < (seq![b] + rest).len() implies {
            &&& #[trigger] (seq![b] + rest)[i].batch_id == m.batch_id + i + 1
            &&& 0 < (seq![b] + rest)[i].data.len() <= STORAGE_BATCH_SIZE
            &&& (seq![b] + rest)[i].created_at == now
        } by {
            if i > 0 {
                assert((seq![b] + rest)[i] == rest[i - 1]);
            }
        }
    }
}

/// Processing a reading files it under its own device: that device's entry
/// then holds exactly the averages handed in with the reading, the
/// reading's timestamp, and one more message than before; every other
/// device's entry is left as it was.
pub proof fn law_processed_entry(
    m: AggregatorModel,
    t: TelemetryData,
    avg_temperature_bits: u64,
    avg_humidity_bits: u64,
)
    requires
        model_wf(m),
        m.total_messages < u64::MAX,
    ensures
        ({
            let m1 = processed(m, t, avg_temperature_bits, avg_humidity_bits);
            &&& m1.devices.contains_key(t.device_id)
            &&& m1.devices[t.device_id].device_id == t.device_id
            &&& m1.devices[t.device_id].avg_temperature_bits == avg_temperature_bits
            &&& m1.devices[t.device_id].avg_humidity_bits == avg_humidity_bits
            &&& m1.devices[t.device_id].last_seen == t.timestamp
            &&& m1.devices[t.device_id].message_count == (if m.devices.contains_key(t.device_id) {
                m.devices[t.device_id].message_count + 1
            } else {
                1
            })
            &&& forall|id: u32| id != t.device_id ==> (#[trigger] m1.devices.contains_key(id)
                == m.devices.contains_key(id) && (m.devices.contains_key(id) ==> m1.devices[id]
                == m.devices[id]))
        }),
{
    if m.devices.contains_key(t.device_id) {
        assert(m.devices[t.device_id].message_count <= m.total_messages);
    }
}

/// The basis of a running-average update is the device's own: for a known
/// device its stored averages and its own message count, for a new device
/// the reading itself with no earlier sample.
pub proof fn law_basis_is_own_device(m: AggregatorModel, t: TelemetryData)
    ensures
        m.devices.contains_key(t.device_id) ==> {
            &&& basis_of(m, t).temperature_bits == m.devices[t.device_id].avg_temperature_bits
            &&& basis_of(m, t).humidity_bits == m.devices[t.device_id].avg_humidity_bits
            &&& basis_of(m, t).count == m.devices[t.device_id].message_count
        },
        !m.devices.contains_key(t.device_id) ==> {
            &&& basis_of(m, t).temperature_bits == t.temperature_bits
            &&& basis_of(m, t).humidity_bits == t.humidity_bits
            &&& basis_of(m, t).count == 0
        },
{
}

/// Readings of other devices do not move a device's basis: processing a
/// reading of device `a` leaves the basis of any reading of a different
/// device `b` as it was.
pub proof fn law_basis_ignores_other_devices(
    m: AggregatorModel,
    other: TelemetryData,
    avg_temperature_bits: u64,
    avg_humidity_bits: u64,
    t: TelemetryData,
)
    requires
        other.device_id != t.device_id,
    ensures
        basis_of(processed(m, other, avg_temperature_bits, avg_humidity_bits), t) == basis_of(m, t),
{
}

/// Running averages chain from one reading of a device to the next: after a
/// reading is processed with averages `a` and `h`, the next reading of the
/// same device is updated from exactly `a` and `h`, with one more sample
/// than the previous basis counted.
pub proof fn law_basis_chains(
    m: AggregatorModel,
    t: TelemetryData,
    avg_temperature_bits: u64,
    avg_humidity_bits: u64,
    next: TelemetryData,
)
    requires
        model_wf(m),
        m.total_messages < u64::MAX,
        next.device_id == t.device_id,
    ensures
        basis_of(processed(m, t, avg_temperature_bits, avg_humidity_bits), next) == (AverageBasis {
            temperature_bits: avg_temperature_bits,
            humidity_bits: avg_humidity_bits,
            count: (basis_of(m, t).count + 1) as u64,
        }),
        basis_of(m, t).count < u64::MAX,
{
    if m.devices.contains_key(t.device_id) {
        assert(m.devices[t.device_id].message_count <= m.total_messages);
    }
}

} // verus!
