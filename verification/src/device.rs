use crate::config::{DEVICE_BACKOFF_MS, DEVICE_BASE_INTERVAL_MS, DEVICE_INTERVAL_VARIANCE_MS};
use crate::random::random_u8;
use crate::types::{TelemetryData, TrySendOutcome};
use vstd::prelude::*;

verus! {

/// Lowest battery level a device starts with, in percent.
pub const BATTERY_START_MIN: u8 = 80;

/// Number of distinct battery levels a device may start with.
pub const BATTERY_START_SPREAD: u8 = 20;

/// What a device reports when asked for its health.
#[derive(Debug, Clone, Copy, PartialEq, Eq, Structural)]
pub struct DeviceStatus {
    pub device_id: u32,
    pub uptime_seconds: u64,
    pub last_telemetry_sent: u64,
    pub battery_level: u8,
}

/// Period between two readings of device `device_id`: devices with higher
/// ids report a little less often.
pub fn send_interval_ms(device_id: u32) -> (ms: u64)
    ensures
        ms == DEVICE_BASE_INTERVAL_MS + device_id * DEVICE_INTERVAL_VARIANCE_MS,
{
    DEVICE_BASE_INTERVAL_MS + (device_id as u64) * DEVICE_INTERVAL_VARIANCE_MS
}

/// The battery level a device starts with, chosen by a random byte.
pub fn initial_battery(roll: u8) -> (level: u8)
    ensures
        level == BATTERY_START_MIN + roll % BATTERY_START_SPREAD,
        BATTERY_START_MIN <= level < BATTERY_START_MIN + BATTERY_START_SPREAD,
{
    BATTERY_START_MIN + roll % BATTERY_START_SPREAD
}

/// Where a device is in its reporting cycle.
#[derive(Debug, Clone, Copy, PartialEq, Eq, Structural)]
pub enum DevicePhase {
    /// Waiting for its timer, a health check or shutdown; no bandwidth slot held.
    Idle,
    /// Trying to get a bandwidth slot; none held yet.
    AwaitingSlot,
    /// Holding a bandwidth slot while this reading is being sent.
    Sending(TelemetryData),
    /// Stopped for good; no slot held.
    Stopped,
}

/// The state that a device keeps between readings.
#[derive(Debug, Clone, Copy, PartialEq, Eq, Structural)]
pub struct DeviceState {
    pub device_id: u32,
    pub start_time: u64,
    pub last_telemetry_sent: u64,
    pub battery_level: u8,
    pub phase: DevicePhase,
}

/// What wakes a device up.
#[derive(Debug, Clone, Copy, PartialEq, Eq, Structural)]
pub enum DeviceEvent {
    /// Its reporting timer fired.
    Tick,
    /// No bandwidth slot was free.
    PermitBusy,
    /// The bandwidth slots were withdrawn for good.
    PermitClosed,
    /// A bandwidth slot is held. `drain_battery` says whether the battery
    /// loses a percent now; the reading's sensor values come along.
    PermitGranted { now: u64, drain_battery: bool, temperature_bits: u64, humidity_bits: u64 },
    /// How the non-blocking send of the reading went.
    TrySent(TrySendOutcome),
    /// Whether the send that waited for room delivered the reading.
    WaitedSend { delivered: bool },
    /// Someone asked for its health at time `now`.
    HealthCheck { now: u64 },
    /// The gateway is shutting down.
    Shutdown,
}

/// What a device asks its runtime to do next.
#[derive(Debug, Clone, Copy, PartialEq, Eq, Structural)]
pub enum DeviceAction {
    /// Try to take a bandwidth slot without waiting.
    TryAcquirePermit,
    /// Sleep this long, then wait for a bandwidth slot.
    BackOff { millis: u64 },
    /// Offer this reading to the aggregator without waiting.
    TrySend(TelemetryData),
    /// Wait until the aggregator has room, then send this reading.
    WaitToSend(TelemetryData),
    /// The reading is delivered: give the bandwidth slot back.
    ReleasePermit,
    /// Answer the health check with this status.
    Respond(DeviceStatus),
    /// Give the bandwidth slot back and stop the device.
    ReleaseAndStop,
    /// Stop the device.
    Stop,
    /// The event does not fit the device's phase; nothing to do.
    Ignore,
}

/// The device after its battery may have drained by one percent.
pub open spec fn drained(s: DeviceState, drain: bool) -> u8 {
    if drain && s.battery_level > 0 { (s.battery_level - 1) as u8 } else { s.battery_level }
}

/// The status a device reports at time `now`.
pub open spec fn status_at(s: DeviceState, now: u64) -> DeviceStatus {
    DeviceStatus {
        device_id: s.device_id,
        uptime_seconds: (now - s.start_time) as u64,
        last_telemetry_sent: s.last_telemetry_sent,
        battery_level: s.battery_level,
    }
}

/// The next state of a device and its action, for one event. An event that
/// does not fit the current phase changes nothing and is answered `Ignore`.
pub open spec fn device_next(s: DeviceState, e: DeviceEvent) -> (DeviceState, DeviceAction) {
    match (s.phase, e) {
        (DevicePhase::Idle, DeviceEvent::Tick) => (
            DeviceState { phase: DevicePhase::AwaitingSlot, ..s },
            DeviceAction::TryAcquirePermit,
        ),
        (DevicePhase::Idle, DeviceEvent::HealthCheck { now }) => (s, DeviceAction::Respond(status_at(s, now))),
        (DevicePhase::Idle, DeviceEvent::Shutdown) => (
            DeviceState { phase: DevicePhase::Stopped, ..s },
            DeviceAction::Stop,
        ),
        (DevicePhase::AwaitingSlot, DeviceEvent::PermitBusy) => (s, DeviceAction::BackOff { millis: DEVICE_BACKOFF_MS }),
        (DevicePhase::AwaitingSlot, DeviceEvent::PermitClosed) => (
            DeviceState { phase: DevicePhase::Stopped, ..s },
            DeviceAction::Stop,
        ),
        (
            DevicePhase::AwaitingSlot,
            DeviceEvent::PermitGranted { now, drain_battery, temperature_bits, humidity_bits },
        ) => {
            let battery = drained(s, drain_battery);
            let t = TelemetryData {
                device_id: s.device_id,
                timestamp: now,
                temperature_bits,
                humidity_bits,
                battery_level: battery,
            };
            (
                DeviceState {
                    last_telemetry_sent: now,
                    battery_level: battery,
                    phase: DevicePhase::Sending(t),
                    ..s
                },
                DeviceAction::TrySend(t),
            )
        },
        (DevicePhase::Sending(t), DeviceEvent::TrySent(outcome)) => match outcome {
            TrySendOutcome::Sent => (DeviceState { phase: DevicePhase::Idle, ..s }, DeviceAction::ReleasePermit),
            TrySendOutcome::Full => (s, DeviceAction::WaitToSend(t)),
            TrySendOutcome::Closed => (
                DeviceState { phase: DevicePhase::Stopped, ..s },
                DeviceAction::ReleaseAndStop,
            ),
        },
        (DevicePhase::Sending(_), DeviceEvent::WaitedSend { delivered }) => {
            if delivered {
                (DeviceState { phase: DevicePhase::Idle, ..s }, DeviceAction::ReleasePermit)
            } else {
                (DeviceState { phase: DevicePhase::Stopped, ..s }, DeviceAction::ReleaseAndStop)
            }
        },
        _ => (s, DeviceAction::Ignore),
    }
}

impl DeviceState {
    /// An idle device that starts at `start_time` with the battery level
    /// that `battery_roll` chooses; it counts as having reported at start.
    pub fn new(device_id: u32, start_time: u64, battery_roll: u8) -> (s: Self)
        ensures
            s == (DeviceState {
                device_id,
                start_time,
                last_telemetry_sent: start_time,
                battery_level: (BATTERY_START_MIN + battery_roll % BATTERY_START_SPREAD) as u8,
                phase: DevicePhase::Idle,
            }),
    {
        DeviceState {
            device_id,
            start_time,
            last_telemetry_sent: start_time,
            battery_level: initial_battery(battery_roll),
            phase: DevicePhase::Idle,
        }
    }

    /// An idle device that starts at `start_time` with a random battery level.
    pub fn start(device_id: u32, start_time: u64) -> (s: Self)
        ensures
            s.device_id == device_id,
            s.start_time == start_time,
            s.last_telemetry_sent == start_time,
            s.phase == DevicePhase::Idle,
            BATTERY_START_MIN <= s.battery_level < BATTERY_START_MIN + BATTERY_START_SPREAD,
    {
        let roll = random_u8();
        DeviceState::new(device_id, start_time, roll)
    }

    /// What the device reports when asked at time `now`.
    pub fn health_status(&self, now: u64) -> (status: DeviceStatus)
        requires
            self.start_time <= now,
        ensures
            status == status_at(*self, now),
    {
        DeviceStatus {
            device_id: self.device_id,
            uptime_seconds: now - self.start_time,
            last_telemetry_sent: self.last_telemetry_sent,
            battery_level: self.battery_level,
        }
    }

    /// One turn of the device's event loop.
    pub fn step(&mut self, event: DeviceEvent) -> (action: DeviceAction)
        requires
            event matches DeviceEvent::HealthCheck { now } ==> old(self).start_time <= now,
        ensures
            (*final(self), action) == device_next(*old(self), event),
    {
        match (self.phase, event) {
            (DevicePhase::Idle, DeviceEvent::Tick) => {
                self.phase = DevicePhase::AwaitingSlot;
                DeviceAction::TryAcquirePermit
            },
            (DevicePhase::Idle, DeviceEvent::HealthCheck { now }) => DeviceAction::Respond(self.health_status(now)),
            (DevicePhase::Idle, DeviceEvent::Shutdown) => {
                self.phase = DevicePhase::Stopped;
                DeviceAction::Stop
            },
            (DevicePhase::AwaitingSlot, DeviceEvent::PermitBusy) => DeviceAction::BackOff { millis: DEVICE_BACKOFF_MS },
            (DevicePhase::AwaitingSlot, DeviceEvent::PermitClosed) => {
                self.phase = DevicePhase::Stopped;
                DeviceAction::Stop
            },
            (
                DevicePhase::AwaitingSlot,
                DeviceEvent::PermitGranted { now, drain_battery, temperature_bits, humidity_bits },
            ) => {
                if drain_battery {
                    self.battery_level = self.battery_level.saturating_sub(1);
                }
                self.last_telemetry_sent = now;
                let t = TelemetryData {
                    device_id: self.device_id,
                    timestamp: now,
                    temperature_bits,
                    humidity_bits,
                    battery_level: self.battery_level,
                };
                self.phase = DevicePhase::Sending(t);
                DeviceAction::TrySend(t)
            },
            (DevicePhase::Sending(t), DeviceEvent::TrySent(outcome)) => match outcome {
                TrySendOutcome::Sent => {
                    self.phase = DevicePhase::Idle;
                    DeviceAction::ReleasePermit
                },
                TrySendOutcome::Full => DeviceAction::WaitToSend(t),
                TrySendOutcome::Closed => {
                    self.phase = DevicePhase::Stopped;
                    DeviceAction::ReleaseAndStop
                },
            },
            (DevicePhase::Sending(_), DeviceEvent::WaitedSend { delivered }) => {
                if delivered {
                    self.phase = DevicePhase::Idle;
                    DeviceAction::ReleasePermit
                } else {
                    self.phase = DevicePhase::Stopped;
                    DeviceAction::ReleaseAndStop
                }
            },
            _ => DeviceAction::Ignore,
        }
    }
}

/// Whether the device holds a bandwidth slot: exactly while sending.
pub open spec fn holds_slot(s: DeviceState) -> bool {
    s.phase is Sending
}

/// Whether the event hands the device a bandwidth slot that it takes.
pub open spec fn takes_slot(s: DeviceState, e: DeviceEvent) -> bool {
    s.phase is AwaitingSlot && e is PermitGranted
}

/// Whether the action gives a bandwidth slot back.
pub open spec fn gives_slot(a: DeviceAction) -> bool {
    a is ReleasePermit || a is ReleaseAndStop
}

/// A device keeps its identity and its start time, and its battery never
/// charges: every step leaves the id and start time as they were and the
/// battery level at most what it was.
pub proof fn law_device_identity_and_battery(s: DeviceState, e: DeviceEvent)
    ensures
        device_next(s, e).0.device_id == s.device_id,
        device_next(s, e).0.start_time == s.start_time,
        device_next(s, e).0.battery_level <= s.battery_level,
{
}

/// Every reading a device sends carries its id, the time it was taken and
/// the battery level the device has afterwards, which it also remembers as
/// the time of its last report.
pub proof fn law_reading_matches_device(s: DeviceState, e: DeviceEvent)
    ensures
        device_next(s, e).1 matches DeviceAction::TrySend(t) ==> {
            &&& e matches DeviceEvent::PermitGranted { now, .. }
            &&& t.device_id == s.device_id
            &&& t.timestamp == now
            &&& t.battery_level == device_next(s, e).0.battery_level
            &&& device_next(s, e).0.last_telemetry_sent == now
        },
{
}

/// A reading that met a full queue is sent again, unchanged, after the wait:
/// the reading of `WaitToSend` is the one being sent, and it stays the
/// pending reading.
pub proof fn law_waited_send_is_the_pending_reading(s: DeviceState, e: DeviceEvent)
    ensures
        device_next(s, e).1 matches DeviceAction::WaitToSend(t) ==> {
            &&& s.phase == DevicePhase::Sending(t)
            &&& device_next(s, e).0 == s
        },
{
}

/// Only a reading, taken while holding a bandwidth slot, changes a device's
/// data; every other event leaves its id, times and battery as they were.
pub proof fn law_only_readings_change_data(s: DeviceState, e: DeviceEvent)
    ensures
        !(e is PermitGranted) ==> {
            &&& device_next(s, e).0.last_telemetry_sent == s.last_telemetry_sent
            &&& device_next(s, e).0.battery_level == s.battery_level
        },
{
}

/// A device offers a reading only while it holds a bandwidth slot; a slot is
/// held from the grant that it takes until it gives the slot back, and a
/// step takes or gives back at most one slot.
pub proof fn law_slot_step(s: DeviceState, e: DeviceEvent)
    ensures
        (device_next(s, e).1 is TrySend || device_next(s, e).1 is WaitToSend) ==> holds_slot(device_next(s, e).0),
        holds_slot(device_next(s, e).0) == (holds_slot(s) && !gives_slot(device_next(s, e).1)) || takes_slot(s, e),
        gives_slot(device_next(s, e).1) ==> holds_slot(s),
        takes_slot(s, e) ==> !holds_slot(s),
        (device_next(s, e).1 is Stop || device_next(s, e).1 is ReleaseAndStop) ==> device_next(s, e).0.phase is Stopped,
{
}

/// The device after a sequence of events, and the actions it answered.
pub open spec fn device_run(s: DeviceState, events: Seq<DeviceEvent>) -> (DeviceState, Seq<DeviceAction>)
    decreases events.len(),
{
    if events.len() == 0 {
        (s, Seq::empty())
    } else {
        let (s1, acts) = device_run(s, events.drop_last());
        let (s2, a) = device_next(s1, events.last());
        (s2, acts.push(a))
    }
}

/// How many slots a device takes along a sequence of events.
pub open spec fn slots_taken(s: DeviceState, events: Seq<DeviceEvent>) -> nat
    decreases events.len(),
{
    if events.len() == 0 {
        0
    } else {
        slots_taken(s, events.drop_last())
            + if takes_slot(device_run(s, events.drop_last()).0, events.last()) { 1nat } else { 0 }
    }
}

/// How many of the actions give a slot back.
pub open spec fn slots_given(actions: Seq<DeviceAction>) -> nat
    decreases actions.len(),
{
    if actions.len() == 0 {
        0
    } else {
        slots_given(actions.drop_last()) + if gives_slot(actions.last()) { 1nat } else { 0 }
    }
}

/// Over any run of a device that starts without a slot, every slot taken is
/// given back once: the slots taken are the slots given back, plus one while
/// the device is still sending. So a device never holds more than one slot,
/// and an idle or stopped device holds none.
pub proof fn law_slots_balance(s: DeviceState, events: Seq<DeviceEvent>)
    requires
        !holds_slot(s),
    ensures
        slots_taken(s, events) == slots_given(device_run(s, events).1)
            + if holds_slot(device_run(s, events).0) { 1nat } else { 0 },
    decreases events.len(),
{
    if events.len() > 0 {
        let prev = events.drop_last();
        law_slots_balance(s, prev);
        let (s1, acts) = device_run(s, prev);
        law_slot_step(s1, events.last());
        assert(acts.push(device_next(s1, events.last()).1).drop_last() =~= acts);
    }
}

/// The latest reading among the actions, if any.
pub open spec fn last_reading(actions: Seq<DeviceAction>) -> Option<TelemetryData>
    decreases actions.len(),
{
    if actions.len() == 0 {
        None
    } else {
        match actions.last() {
            DeviceAction::TrySend(t) => Some(t),
            _ => last_reading(actions.drop_last()),
        }
    }
}

/// After any run, a device's battery level is that of its latest reading.
proof fn lemma_battery_is_latest(s: DeviceState, events: Seq<DeviceEvent>)
    ensures
        last_reading(device_run(s, events).1) matches Some(t) ==> device_run(s, events).0.battery_level
            == t.battery_level,
    decreases events.len(),
{
    if events.len() > 0 {
        let prev = events.drop_last();
        lemma_battery_is_latest(s, prev);
        let (s1, acts) = device_run(s, prev);
        let a = device_next(s1, events.last()).1;
        assert(acts.push(a).drop_last() =~= acts);
        law_only_readings_change_data(s1, events.last());
    }
}

/// Between two consecutive readings of a device the battery drops by at
/// most one percent, and drops only when the second reading came with a
/// drain: for any run, a reading sent in its last step compared with the
/// latest reading before it.
pub proof fn law_battery_between_readings(s: DeviceState, events: Seq<DeviceEvent>)
    requires
        events.len() > 0,
    ensures
        ({
            let before = device_run(s, events.drop_last()).1;
            let after = device_run(s, events).1;
            match (after.last(), last_reading(before)) {
                (DeviceAction::TrySend(t2), Some(t1)) => {
                    &&& t2.battery_level <= t1.battery_level <= t2.battery_level + 1
                    &&& (t2.battery_level < t1.battery_level ==> (events.last() matches DeviceEvent::PermitGranted {
                        drain_battery,
                        ..
                    } && drain_battery))
                },
                _ => true,
            }
        }),
{
    let prev = events.drop_last();
    lemma_battery_is_latest(s, prev);
}

} // verus!
