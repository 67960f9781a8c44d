use crate::config::STORAGE_BATCH_SIZE;
use crate::types::{BatchModel, DeviceMetrics, SystemSnapshot, TelemetryBatch, TelemetryData, TrySendOutcome};
use std::collections::HashMap;
use vstd::prelude::*;

verus! {

broadcast use vstd::std_specs::hash::group_hash_axioms;

/// The aggregator as a mathematical value.
pub struct AggregatorModel {
    /// What is known of each device that has sent a reading, by device id.
    pub devices: Map<u32, DeviceMetrics>,
    /// Readings processed so far.
    pub total_messages: nat,
    /// Readings processed since the last batch was taken, oldest first.
    pub buffer: Seq<TelemetryData>,
    /// Id of the last batch taken (0 before the first).
    pub batch_id: nat,
}

/// The sum of the message counts of all devices of `m`.
pub open spec fn total_count(m: Map<u32, DeviceMetrics>) -> nat
    decreases m.dom().len(),
    when m.dom().finite()
{
    if m.dom().len() == 0 {
        0
    } else {
        let k = m.dom().choose();
        m[k].message_count as nat + total_count(m.remove(k))
    }
}

/// Taking any one device out of the sum leaves the sum of the others.
pub proof fn lemma_total_count_remove(m: Map<u32, DeviceMetrics>, k: u32)
    requires
        m.dom().finite(),
        m.contains_key(k),
    ensures
        total_count(m) == total_count(m.remove(k)) + m[k].message_count,
    decreases m.dom().len(),
{
    assert(m.dom().len() != 0);
    let c = m.dom().choose();
    assert(m.dom().contains(c));
    if c != k {
        lemma_total_count_remove(m.remove(c), k);
        lemma_total_count_remove(m.remove(k), c);
        assert(m.remove(c).remove(k) =~= m.remove(k).remove(c));
    }
}

/// What holds of every aggregator: each entry is filed under its own id and
/// has seen at least one and at most all messages, and every batch taken
/// and every buffered reading was counted.
pub open spec fn model_wf(m: AggregatorModel) -> bool {
    &&& m.devices.dom().finite()
    &&& forall|id: u32| #[trigger] m.devices.contains_key(id) ==> {
        &&& m.devices[id].device_id == id
        &&& 1 <= m.devices[id].message_count <= m.total_messages
    }
    &&& m.devices.len() <= m.total_messages
    &&& total_count(m.devices) == m.total_messages
    &&& m.batch_id + m.buffer.len() <= m.total_messages
    &&& m.total_messages <= u64::MAX
}

/// The aggregator before any reading.
pub open spec fn initial_model() -> AggregatorModel {
    AggregatorModel {
        devices: Map::empty(),
        total_messages: 0,
        buffer: Seq::empty(),
        batch_id: 0,
    }
}

/// Messages counted so far for a device (0 for an unknown device).
pub open spec fn device_count(m: AggregatorModel, id: u32) -> nat {
    if m.devices.contains_key(id) {
        m.devices[id].message_count as nat
    } else {
        0
    }
}

/// The previous average and sample count from which the running averages
/// of a device are updated by a new reading.
#[derive(Debug, Clone, Copy, PartialEq, Eq, Structural)]
pub struct AverageBasis {
    pub temperature_bits: u64,
    pub humidity_bits: u64,
    pub count: u64,
}

/// For a known device its stored averages and count; for a new device the
/// reading itself with a count of 0.
pub open spec fn basis_of(m: AggregatorModel, t: TelemetryData) -> AverageBasis {
    if m.devices.contains_key(t.device_id) {
        let d = m.devices[t.device_id];
        AverageBasis {
            temperature_bits: d.avg_temperature_bits,
            humidity_bits: d.avg_humidity_bits,
            count: d.message_count,
        }
    } else {
        AverageBasis {
            temperature_bits: t.temperature_bits,
            humidity_bits: t.humidity_bits,
            count: 0,
        }
    }
}

/// The aggregator after it has processed reading `t`, whose device's
/// averages become `avg_temperature_bits` and `avg_humidity_bits`.
pub open spec fn processed(
    m: AggregatorModel,
    t: TelemetryData,
    avg_temperature_bits: u64,
    avg_humidity_bits: u64,
) -> AggregatorModel {
    AggregatorModel {
        devices: m.devices.insert(
            t.device_id,
            DeviceMetrics {
                device_id: t.device_id,
                last_seen: t.timestamp,
                avg_temperature_bits,
                avg_humidity_bits,
                message_count: (device_count(m, t.device_id) + 1) as u64,
            },
        ),
        total_messages: m.total_messages + 1,
        buffer: m.buffer.push(t),
        batch_id: m.batch_id,
    }
}

/// How many buffered readings the next batch takes: all of them, up to
/// [`STORAGE_BATCH_SIZE`].
pub open spec fn batch_len(m: AggregatorModel) -> int {
    if m.buffer.len() < STORAGE_BATCH_SIZE {
        m.buffer.len() as int
    } else {
        STORAGE_BATCH_SIZE as int
    }
}

/// The aggregator after a flush at time `now`, and the batch taken, if any:
/// nothing happens when no reading is buffered; otherwise the oldest
/// buffered readings, at most [`STORAGE_BATCH_SIZE`] of them, leave in a
/// batch with the next id, and the rest stay buffered.
pub open spec fn flushed(m: AggregatorModel, now: u64) -> (AggregatorModel, Option<BatchModel>) {
    if m.buffer.len() == 0 {
        (m, None)
    } else {
        (
            AggregatorModel { buffer: m.buffer.skip(batch_len(m)), batch_id: m.batch_id + 1, ..m },
            Some(BatchModel { batch_id: m.batch_id + 1, data: m.buffer.take(batch_len(m)), created_at: now }),
        )
    }
}

/// The aggregator after flushing again and again at time `now` until
/// nothing is buffered, and the batches taken, in order.
pub open spec fn flush_all(m: AggregatorModel, now: u64) -> (AggregatorModel, Seq<BatchModel>)
    decreases m.buffer.len(),
{
    if m.buffer.len() == 0 {
        (m, Seq::empty())
    } else {
        let next = flushed(m, now);
        let rest = flush_all(next.0, now);
        (rest.0, seq![next.1.unwrap()] + rest.1)
    }
}

/// The views of a sequence of batches.
pub open spec fn batch_views(bs: Seq<TelemetryBatch>) -> Seq<BatchModel> {
    bs.map_values(|b: TelemetryBatch| b@)
}

/// Processing a reading keeps the invariant.
pub proof fn lemma_processed_wf(
    m: AggregatorModel,
    t: TelemetryData,
    avg_temperature_bits: u64,
    avg_humidity_bits: u64,
)
    requires
        model_wf(m),
        m.total_messages < u64::MAX,
    ensures
        model_wf(processed(m, t, avg_temperature_bits, avg_humidity_bits)),
{
    let m1 = processed(m, t, avg_temperature_bits, avg_humidity_bits);
    let k = t.device_id;
    lemma_total_count_remove(m1.devices, k);
    assert(m1.devices.remove(k) =~= m.devices.remove(k));
    if m.devices.contains_key(k) {
        lemma_total_count_remove(m.devices, k);
    } else {
        assert(m.devices.remove(k) =~= m.devices);
        assert(m1.devices.len() == m.devices.len() + 1);
    }
    assert forall|id: u32| #[trigger] m1.devices.contains_key(id) implies {
        &&& m1.devices[id].device_id == id
        &&& 1 <= m1.devices[id].message_count <= m1.total_messages
    } by {
        if id != t.device_id {
            assert(m.devices.contains_key(id));
        }
    }
}

/// A flush keeps the invariant.
pub proof fn lemma_flushed_wf(m: AggregatorModel, now: u64)
    requires
        model_wf(m),
    ensures
        model_wf(flushed(m, now).0),
{
}

/// The hub that collects readings, keeps per-device running metrics and
/// groups readings into batches for storage.
pub struct Aggregator {
    device_metrics: HashMap<u32, DeviceMetrics>,
    total_messages: u64,
    batch_buffer: Vec<TelemetryData>,
    batch_id: u64,
}

impl View for Aggregator {
    type V = AggregatorModel;

    closed spec fn view(&self) -> AggregatorModel {
        AggregatorModel {
            devices: self.device_metrics@,
            total_messages: self.total_messages as nat,
            buffer: self.batch_buffer@,
            batch_id: self.batch_id as nat,
        }
    }
}

impl Aggregator {
    /// Well-formedness: the model invariant holds.
    pub open spec fn wf(&self) -> bool {
        model_wf(self@)
    }

    /// An aggregator that has seen nothing.
    pub fn new() -> (a: Self)
        ensures
            a.wf(),
            a@ == initial_model(),
    {
        let a = Aggregator {
            device_metrics: HashMap::new(),
            total_messages: 0,
            batch_buffer: Vec::new(),
            batch_id: 0,
        };
        assert(a@.devices =~= Map::<u32, DeviceMetrics>::empty());
        assert(a@.buffer =~= Seq::<TelemetryData>::empty());
        assert(total_count(a@.devices) == 0);
        a
    }

    /// Readings processed so far.
    pub fn total_messages(&self) -> (n: u64)
        ensures
            n == self@.total_messages,
    {
        self.total_messages
    }

    /// Readings waiting for the next batch.
    pub fn buffered(&self) -> (n: usize)
        ensures
            n == self@.buffer.len(),
    {
        self.batch_buffer.len()
    }

    /// Id of the last batch taken.
    pub fn last_batch_id(&self) -> (n: u64)
        ensures
            n == self@.batch_id,
    {
        self.batch_id
    }

    /// What is known of one device, if it has sent a reading.
    pub fn device(&self, device_id: u32) -> (d: Option<DeviceMetrics>)
        ensures
            d == (if self@.devices.contains_key(device_id) {
                Some(self@.devices[device_id])
            } else {
                None
            }),
    {
        match self.device_metrics.get(&device_id) {
            Some(d) => Some(*d),
            None => None,
        }
    }

    /// The previous averages and sample count that reading `t` updates.
    pub fn average_basis(&self, t: &TelemetryData) -> (b: AverageBasis)
        ensures
            b == basis_of(self@, *t),
            self@.devices.contains_key(t.device_id) ==> {
                &&& b.temperature_bits == self@.devices[t.device_id].avg_temperature_bits
                &&& b.humidity_bits == self@.devices[t.device_id].avg_humidity_bits
                &&& b.count == self@.devices[t.device_id].message_count
            },
            !self@.devices.contains_key(t.device_id) ==> {
                &&& b.temperature_bits == t.temperature_bits
                &&& b.humidity_bits == t.humidity_bits
                &&& b.count == 0
            },
    {
        match self.device_metrics.get(&t.device_id) {
            Some(d) => AverageBasis {
                temperature_bits: d.avg_temperature_bits,
                humidity_bits: d.avg_humidity_bits,
                count: d.message_count,
            },
            None => AverageBasis {
                temperature_bits: t.temperature_bits,
                humidity_bits: t.humidity_bits,
                count: 0,
            },
        }
    }

    /// Processes one reading: counts it, buffers it for the next batch and
    /// updates its device's entry with the new averages; returns the
    /// snapshot of the gateway taken at time `now`.
    pub fn process_telemetry(
        &mut self,
        telemetry: TelemetryData,
        avg_temperature_bits: u64,
        avg_humidity_bits: u64,
        now: u64,
    ) -> (snapshot: SystemSnapshot)
        requires
            old(self).wf(),
            old(self)@.total_messages < u64::MAX,
        ensures
            final(self).wf(),
            final(self)@ == processed(old(self)@, telemetry, avg_temperature_bits, avg_humidity_bits),
            final(self)@.devices.contains_key(telemetry.device_id),
            final(self)@.devices[telemetry.device_id] == (DeviceMetrics {
                device_id: telemetry.device_id,
                last_seen: telemetry.timestamp,
                avg_temperature_bits,
                avg_humidity_bits,
                message_count: (device_count(old(self)@, telemetry.device_id) + 1) as u64,
            }),
            forall|id: u32| id != telemetry.device_id ==> (#[trigger] final(self)@.devices.contains_key(id)
                == old(self)@.devices.contains_key(id) && (old(self)@.devices.contains_key(id)
                ==> final(self)@.devices[id] == old(self)@.devices[id])),
            final(self)@.total_messages == old(self)@.total_messages + 1,
            final(self)@.buffer == old(self)@.buffer.push(telemetry),
            final(self)@.batch_id == old(self)@.batch_id,
            snapshot.active_devices == final(self)@.devices.len(),
            snapshot.total_messages == final(self)@.total_messages,
            snapshot.device_metrics@ == final(self)@.devices,
            snapshot.total_messages == total_count(snapshot.device_metrics@),
            snapshot.last_update == now,
    {
        let ghost m0 = self@;
        self.total_messages = self.total_messages + 1;
        self.batch_buffer.push(telemetry);
        let count: u64 = match self.device_metrics.get(&telemetry.device_id) {
            Some(d) => d.message_count + 1,
            None => 1,
        };
        let entry = DeviceMetrics {
            device_id: telemetry.device_id,
            last_seen: telemetry.timestamp,
            avg_temperature_bits,
            avg_humidity_bits,
            message_count: count,
        };
        self.device_metrics.insert(telemetry.device_id, entry);
        proof {
            assert(self@ == processed(m0, telemetry, avg_temperature_bits, avg_humidity_bits));
            lemma_processed_wf(m0, telemetry, avg_temperature_bits, avg_humidity_bits);
        }
        SystemSnapshot {
            active_devices: self.device_metrics.len(),
            total_messages: self.total_messages,
            device_metrics: self.device_metrics.clone(),
            last_update: now,
        }
    }

    /// Takes the oldest buffered readings, at most [`STORAGE_BATCH_SIZE`],
    /// into a new batch created at `now`; `None` when nothing is buffered.
    pub fn take_batch(&mut self, now: u64) -> (batch: Option<TelemetryBatch>)
        requires
            old(self).wf(),
        ensures
            final(self).wf(),
            final(self)@ == flushed(old(self)@, now).0,
            match batch {
                Some(b) => flushed(old(self)@, now).1 == Some(b@),
                None => flushed(old(self)@, now).1 is None,
            },
    {
        if self.batch_buffer.len() == 0 {
            return None;
        }
        self.batch_id = self.batch_id + 1;
        let n: usize = if self.batch_buffer.len() < STORAGE_BATCH_SIZE {
            self.batch_buffer.len()
        } else {
            STORAGE_BATCH_SIZE
        };
        let mut data: Vec<TelemetryData> = self.batch_buffer.split_off(n);
        std::mem::swap(&mut data, &mut self.batch_buffer);
        proof {
            assert(self@.buffer =~= old(self)@.buffer.skip(n as int));
            assert(data@ =~= old(self)@.buffer.take(n as int));
            lemma_flushed_wf(old(self)@, now);
        }
        Some(TelemetryBatch { batch_id: self.batch_id, data, created_at: now })
    }

    /// Takes batches at time `now` until nothing is buffered.
    pub fn take_all_batches(&mut self, now: u64) -> (batches: Vec<TelemetryBatch>)
        requires
            old(self).wf(),
        ensures
            final(self).wf(),
            final(self)@ == flush_all(old(self)@, now).0,
            batch_views(batches@) == flush_all(old(self)@, now).1,
    {
        let mut batches: Vec<TelemetryBatch> = Vec::new();
        proof {
            assert(batch_views(batches@) + flush_all(self@, now).1 =~= flush_all(self@, now).1);
        }
        while self.batch_buffer.len() > 0
            invariant
                self.wf(),
                flush_all(old(self)@, now).0 == flush_all(self@, now).0,
                flush_all(old(self)@, now).1 == batch_views(batches@) + flush_all(self@, now).1,
            decreases self@.buffer.len(),
        {
            let ghost prev = self@;
            let taken = self.take_batch(now);
            match taken {
                Some(b) => {
                    proof {
                        assert(flush_all(prev, now).1 == seq![b@] + flush_all(self@, now).1);
                        assert(batch_views(batches@.push(b)) =~= batch_views(batches@).push(b@));
                        assert(batch_views(batches@).push(b@) + flush_all(self@, now).1 =~= batch_views(
                            batches@,
                        ) + (seq![b@] + flush_all(self@, now).1));
                    }
                    batches.push(b);
                },
                None => {},
            }
        }
        proof {
            assert(batch_views(batches@) + Seq::<BatchModel>::empty() =~= batch_views(batches@));
        }
        batches
    }
}

/// What wakes the aggregator up.
pub enum AggregatorEvent {
    /// A reading arrived; the averages of its device, updated from
    /// [`Aggregator::average_basis`], come with it.
    Telemetry {
        telemetry: TelemetryData,
        avg_temperature_bits: u64,
        avg_humidity_bits: u64,
        now: u64,
    },
    /// The periodic flush timer fired.
    FlushTimer { now: u64 },
    /// The gateway is shutting down.
    Shutdown { now: u64 },
}

/// What the aggregator asks its runtime to do next.
pub enum AggregatorAction {
    /// Share this snapshot with the watchers and broadcast it to clients.
    Publish(SystemSnapshot),
    /// Hand this batch to storage.
    Store(TelemetryBatch),
    /// Nothing to do.
    Idle,
    /// Hand these last batches, in order, to storage, then stop.
    Finish(Vec<TelemetryBatch>),
}

impl Aggregator {
    /// One turn of the aggregator's event loop.
    pub fn step(&mut self, event: AggregatorEvent) -> (action: AggregatorAction)
        requires
            old(self).wf(),
            event is Telemetry ==> old(self)@.total_messages < u64::MAX,
        ensures
            final(self).wf(),
            match event {
                AggregatorEvent::Telemetry {
                    telemetry,
                    avg_temperature_bits,
                    avg_humidity_bits,
                    now,
                } => {
                    &&& final(self)@ == processed(
                        old(self)@,
                        telemetry,
                        avg_temperature_bits,
                        avg_humidity_bits,
                    )
                    &&& action matches AggregatorAction::Publish(s)
                    &&& s.active_devices == final(self)@.devices.len()
                    &&& s.total_messages == final(self)@.total_messages
                    &&& s.device_metrics@ == final(self)@.devices
                    &&& s.total_messages == total_count(s.device_metrics@)
                    &&& s.last_update == now
                },
                AggregatorEvent::FlushTimer { now } => {
                    &&& final(self)@ == flushed(old(self)@, now).0
                    &&& match flushed(old(self)@, now).1 {
                        Some(b) => action matches AggregatorAction::Store(batch) && batch@ == b,
                        None => action is Idle,
                    }
                },
                AggregatorEvent::Shutdown { now } => {
                    &&& final(self)@ == flush_all(old(self)@, now).0
                    &&& action matches AggregatorAction::Finish(last)
                    &&& batch_views(last@) == flush_all(old(self)@, now).1
                },
            },
    {
        match event {
            AggregatorEvent::Telemetry { telemetry, avg_temperature_bits, avg_humidity_bits, now } => {
                AggregatorAction::Publish(
                    self.process_telemetry(telemetry, avg_temperature_bits, avg_humidity_bits, now),
                )
            },
            AggregatorEvent::FlushTimer { now } => match self.take_batch(now) {
                Some(batch) => AggregatorAction::Store(batch),
                None => AggregatorAction::Idle,
            },
            AggregatorEvent::Shutdown { now } => AggregatorAction::Finish(self.take_all_batches(now)),
        }
    }
}

/// What the aggregator does after offering a batch to storage.
#[derive(Debug, Clone, Copy, PartialEq, Eq, Structural)]
pub enum BatchSendAction {
    /// Storage took the batch.
    Delivered,
    /// Storage is backed up: wait until it has room, then send.
    WaitForRoom,
    /// Storage is gone: report it; the batch is lost.
    ReportClosed,
}

/// The aggregator's answer to a non-blocking send of a batch: a full queue
/// is waited on, a closed one is reported.
pub fn batch_send_action(outcome: TrySendOutcome) -> (action: BatchSendAction)
    ensures
        action == (match outcome {
            TrySendOutcome::Sent => BatchSendAction::Delivered,
            TrySendOutcome::Full => BatchSendAction::WaitForRoom,
            TrySendOutcome::Closed => BatchSendAction::ReportClosed,
        }),
{
    match outcome {
        TrySendOutcome::Sent => BatchSendAction::Delivered,
        TrySendOutcome::Full => BatchSendAction::WaitForRoom,
        TrySendOutcome::Closed => BatchSendAction::ReportClosed,
    }
}

} // verus!
