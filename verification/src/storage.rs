use crate::config::{STORAGE_WRITE_BASE_MS, STORAGE_WRITE_PER_RECORD_MS};
use vstd::prelude::*;

verus! {

/// How long writing a batch of `record_count` readings takes.
pub fn write_duration_ms(record_count: usize) -> (ms: u64)
    requires
        STORAGE_WRITE_BASE_MS + record_count * STORAGE_WRITE_PER_RECORD_MS <= u64::MAX,
    ensures
        ms == STORAGE_WRITE_BASE_MS + record_count * STORAGE_WRITE_PER_RECORD_MS,
{
    STORAGE_WRITE_BASE_MS + (record_count as u64) * STORAGE_WRITE_PER_RECORD_MS
}

/// Where the storage writer is in handling a batch.
#[derive(Debug, Clone, Copy, PartialEq, Eq, Structural)]
pub enum StoragePhase {
    /// Waiting for a batch; no database connection held.
    Idle,
    /// Getting a database connection for a batch of `record_count` readings.
    Acquiring { record_count: usize },
    /// Holding a database connection while the batch is written.
    Writing,
    /// Stopped for good.
    Stopped,
}

/// The state of the storage writer.
#[derive(Debug, Clone, Copy, PartialEq, Eq, Structural)]
pub struct StorageWriter {
    pub phase: StoragePhase,
    /// Shutdown was asked for: the writer takes what is still queued and
    /// stops once the queue has closed.
    pub draining: bool,
}

/// Where the storage writer takes its next batch from.
#[derive(Debug, Clone, Copy, PartialEq, Eq, Structural)]
pub enum NextInput {
    /// Wait for a batch or for shutdown.
    Listen,
    /// Wait for a batch still queued, until the queue closes.
    Drain,
}

/// What wakes the storage writer up.
#[derive(Debug, Clone, Copy, PartialEq, Eq, Structural)]
pub enum StorageEvent {
    /// A batch of `record_count` readings arrived.
    Batch { record_count: usize },
    /// No database connection was free.
    ConnectionBusy,
    /// A database connection is held for the batch.
    ConnectionReady,
    /// The write finished; `failed` says whether it failed.
    Written { failed: bool },
    /// The gateway is shutting down.
    Shutdown,
    /// The queue of batches is closed and empty.
    QueueClosed,
}

/// What the storage writer asks its runtime to do next.
#[derive(Debug, Clone, Copy, PartialEq, Eq, Structural)]
pub enum StorageAction {
    /// Try to take a database connection without waiting.
    TryAcquireConnection,
    /// Wait until a database connection is free.
    WaitForConnection,
    /// Write the batch, which takes this long.
    Write { duration_ms: u64 },
    /// Report how the write went, give the connection back, and take the
    /// next batch as `next` says.
    Report { failed: bool, next: NextInput },
    /// Take the batches still queued, until the queue closes.
    Drain,
    /// Stop the writer.
    Stop,
    /// The event does not fit the writer's phase; nothing to do.
    Ignore,
}

/// Whether an event can be stepped without overflow of the write duration.
pub open spec fn storage_event_ok(w: StorageWriter, event: StorageEvent) -> bool {
    match (w.phase, event) {
        (StoragePhase::Acquiring { record_count }, StorageEvent::ConnectionReady) => STORAGE_WRITE_BASE_MS
            + record_count * STORAGE_WRITE_PER_RECORD_MS <= u64::MAX,
        _ => true,
    }
}

/// The storage writer's next state and answer to an event. A batch is
/// written while holding a connection, which is given back with the report;
/// shutdown makes the writer take what is still queued, and it stops only
/// once the queue has closed. An event that does not fit the phase changes
/// nothing and is answered `Ignore`.
pub open spec fn storage_next(w: StorageWriter, event: StorageEvent) -> (StorageWriter, StorageAction) {
    match (w.phase, event) {
        (StoragePhase::Idle, StorageEvent::Batch { record_count }) => (
            StorageWriter { phase: StoragePhase::Acquiring { record_count }, ..w },
            StorageAction::TryAcquireConnection,
        ),
        (StoragePhase::Acquiring { .. }, StorageEvent::ConnectionBusy) => (w, StorageAction::WaitForConnection),
        (StoragePhase::Acquiring { record_count }, StorageEvent::ConnectionReady) => (
            StorageWriter { phase: StoragePhase::Writing, ..w },
            StorageAction::Write {
                duration_ms: (STORAGE_WRITE_BASE_MS + record_count * STORAGE_WRITE_PER_RECORD_MS) as u64,
            },
        ),
        (StoragePhase::Writing, StorageEvent::Written { failed }) => (
            StorageWriter { phase: StoragePhase::Idle, ..w },
            StorageAction::Report {
                failed,
                next: if w.draining { NextInput::Drain } else { NextInput::Listen },
            },
        ),
        (StoragePhase::Idle, StorageEvent::Shutdown) => {
            if w.draining {
                (w, StorageAction::Ignore)
            } else {
                (StorageWriter { draining: true, ..w }, StorageAction::Drain)
            }
        },
        (StoragePhase::Idle, StorageEvent::QueueClosed) => {
            if w.draining {
                (StorageWriter { phase: StoragePhase::Stopped, ..w }, StorageAction::Stop)
            } else {
                (w, StorageAction::Ignore)
            }
        },
        _ => (w, StorageAction::Ignore),
    }
}

impl StorageWriter {
    /// A writer waiting for its first batch.
    pub fn new() -> (w: Self)
        ensures
            w == (StorageWriter { phase: StoragePhase::Idle, draining: false }),
    {
        StorageWriter { phase: StoragePhase::Idle, draining: false }
    }

    /// One turn of the storage writer's event loop.
    pub fn step(&mut self, event: StorageEvent) -> (action: StorageAction)
        requires
            storage_event_ok(*old(self), event),
        ensures
            (*final(self), action) == storage_next(*old(self), event),
    {
        match (self.phase, event) {
            (StoragePhase::Idle, StorageEvent::Batch { record_count }) => {
                self.phase = StoragePhase::Acquiring { record_count };
                StorageAction::TryAcquireConnection
            },
            (StoragePhase::Acquiring { .. }, StorageEvent::ConnectionBusy) => StorageAction::WaitForConnection,
            (StoragePhase::Acquiring { record_count }, StorageEvent::ConnectionReady) => {
                self.phase = StoragePhase::Writing;
                StorageAction::Write { duration_ms: write_duration_ms(record_count) }
            },
            (StoragePhase::Writing, StorageEvent::Written { failed }) => {
                self.phase = StoragePhase::Idle;
                let next = if self.draining { NextInput::Drain } else { NextInput::Listen };
                StorageAction::Report { failed, next }
            },
            (StoragePhase::Idle, StorageEvent::Shutdown) => {
                if self.draining {
                    StorageAction::Ignore
                } else {
                    self.draining = true;
                    StorageAction::Drain
                }
            },
            (StoragePhase::Idle, StorageEvent::QueueClosed) => {
                if self.draining {
                    self.phase = StoragePhase::Stopped;
                    StorageAction::Stop
                } else {
                    StorageAction::Ignore
                }
            },
            _ => StorageAction::Ignore,
        }
    }
}

/// Whether the writer holds a database connection: exactly while writing.
pub open spec fn holds_connection(w: StorageWriter) -> bool {
    w.phase is Writing
}

/// Whether the event hands the writer a connection that it takes.
pub open spec fn takes_connection(w: StorageWriter, e: StorageEvent) -> bool {
    w.phase is Acquiring && e is ConnectionReady
}

/// Whether the action gives a connection back.
pub open spec fn gives_connection(a: StorageAction) -> bool {
    a is Report
}

/// A batch is written only while a database connection is held; the
/// connection is held from the moment it is taken until the write is
/// reported, and a step takes or gives back at most one connection.
pub proof fn law_connection_step(w: StorageWriter, e: StorageEvent)
    ensures
        storage_next(w, e).1 is Write ==> holds_connection(storage_next(w, e).0),
        holds_connection(storage_next(w, e).0) == (holds_connection(w) && !gives_connection(storage_next(w, e).1))
            || takes_connection(w, e),
        gives_connection(storage_next(w, e).1) ==> holds_connection(w),
        takes_connection(w, e) ==> !holds_connection(w),
{
}

/// No batch is dropped: a batch that reaches an idle writer is always
/// taken for writing, and the writer stops only when idle, after shutdown
/// was asked for and the queue has closed; shutdown never stops it at once.
pub proof fn law_no_batch_dropped(w: StorageWriter, e: StorageEvent)
    ensures
        (w.phase is Idle && e is Batch) ==> storage_next(w, e).1 is TryAcquireConnection,
        storage_next(w, e).1 is Stop ==> (w.phase is Idle && w.draining && e is QueueClosed),
        e is Shutdown ==> storage_next(w, e).0.phase == w.phase,
        w.draining ==> storage_next(w, e).0.draining,
{
}

/// The writer after a sequence of events, and the actions it answered.
pub open spec fn storage_run(w: StorageWriter, events: Seq<StorageEvent>) -> (StorageWriter, Seq<StorageAction>)
    decreases events.len(),
{
    if events.len() == 0 {
        (w, Seq::empty())
    } else {
        let (w1, acts) = storage_run(w, events.drop_last());
        let (w2, a) = storage_next(w1, events.last());
        (w2, acts.push(a))
    }
}

/// How many connections the writer takes along a sequence of events.
pub open spec fn connections_taken(w: StorageWriter, events: Seq<StorageEvent>) -> nat
    decreases events.len(),
{
    if events.len() == 0 {
        0
    } else {
        connections_taken(w, events.drop_last())
            + if takes_connection(storage_run(w, events.drop_last()).0, events.last()) { 1nat } else { 0 }
    }
}

/// How many of the actions give a connection back.
pub open spec fn connections_given(actions: Seq<StorageAction>) -> nat
    decreases actions.len(),
{
    if actions.len() == 0 {
        0
    } else {
        connections_given(actions.drop_last()) + if gives_connection(actions.last()) { 1nat } else { 0 }
    }
}

/// Over any run of a writer that starts without a connection, every
/// connection taken is given back once: the connections taken are those
/// given back, plus one while a write is under way. So the writer never
/// holds more than one connection, and keeps none between batches.
pub proof fn law_connections_balance(w: StorageWriter, events: Seq<StorageEvent>)
    requires
        !holds_connection(w),
    ensures
        connections_taken(w, events) == connections_given(storage_run(w, events).1)
            + if holds_connection(storage_run(w, events).0) { 1nat } else { 0 },
    decreases events.len(),
{
    if events.len() > 0 {
        let prev = events.drop_last();
        law_connections_balance(w, prev);
        let (w1, acts) = storage_run(w, prev);
        law_connection_step(w1, events.last());
        assert(acts.push(storage_next(w1, events.last()).1).drop_last() =~= acts);
    }
}

} // verus!
