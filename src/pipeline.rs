use vstd::prelude::*;
use crate::command::Command;
use crate::table::PendingTable;
use crate::util::{be_u32, read_u32, Error};

verus! {

/// The state of the reader and of the writer task.
#[derive(Debug, Clone, Copy, PartialEq, Eq, Structural)]
pub enum TaskState {
    /// No half of a connection is held.
    WaitingForHalf,
    /// A half of a live connection is held and used.
    Streaming,
    /// Shut down; no further work.
    Stopped,
}

/// What the reader task observes.
#[derive(Debug, Clone, Copy, PartialEq, Eq, Structural)]
pub enum ReaderEvent {
    /// A read half of a new connection was handed over.
    HalfReceived,
    /// A whole frame was read and decoded.
    FrameDecoded,
    /// Fewer than four bytes are buffered.
    NotReady,
    /// Reading or decoding failed.
    ReadFailed,
    /// The shutdown signal was observed.
    Shutdown,
}

/// What the reader task does next.
#[derive(Debug, Clone, Copy, PartialEq, Eq, Structural)]
pub enum ReaderAction {
    /// Read the next frame from the current half.
    ReadFrame,
    /// Hand the decoded frame to the request with its opaque, if one is pending;
    /// then read the next frame.
    Deliver,
    /// Wait for the next read half.
    AwaitHalf,
    /// Abandon the half, fail every pending request, ask for a new connection and
    /// wait for its read half.
    Reconnect,
    /// Leave the task.
    Exit,
}

/// The reader task's transitions. Shutdown ends it from any state; a failed read
/// sends it back to wait for a new connection; a missing frame prefix is retried.
pub open spec fn reader_next(state: TaskState, event: ReaderEvent) -> (TaskState, ReaderAction) {
    if state == TaskState::Stopped || event == ReaderEvent::Shutdown {
        (TaskState::Stopped, ReaderAction::Exit)
    } else if state == TaskState::WaitingForHalf {
        if event == ReaderEvent::HalfReceived {
            (TaskState::Streaming, ReaderAction::ReadFrame)
        } else {
            (TaskState::WaitingForHalf, ReaderAction::AwaitHalf)
        }
    } else {
        match event {
            ReaderEvent::FrameDecoded => (TaskState::Streaming, ReaderAction::Deliver),
            ReaderEvent::ReadFailed => (TaskState::WaitingForHalf, ReaderAction::Reconnect),
            _ => (TaskState::Streaming, ReaderAction::ReadFrame),
        }
    }
}

/// The reader task's next state and action.
pub fn reader_step(state: TaskState, event: ReaderEvent) -> (r: (TaskState, ReaderAction))
    ensures
        r == reader_next(state, event),
{
    if state == TaskState::Stopped || event == ReaderEvent::Shutdown {
        return (TaskState::Stopped, ReaderAction::Exit);
    }
    match state {
        TaskState::WaitingForHalf => {
            if event == ReaderEvent::HalfReceived {
                (TaskState::Streaming, ReaderAction::ReadFrame)
            } else {
                (TaskState::WaitingForHalf, ReaderAction::AwaitHalf)
            }
        },
        _ => match event {
            ReaderEvent::FrameDecoded => (TaskState::Streaming, ReaderAction::Deliver),
            ReaderEvent::ReadFailed => (TaskState::WaitingForHalf, ReaderAction::Reconnect),
            _ => (TaskState::Streaming, ReaderAction::ReadFrame),
        },
    }
}

/// What the writer task observes.
#[derive(Debug, Clone, Copy, PartialEq, Eq, Structural)]
pub enum WriterEvent {
    /// A write half of a new connection was handed over.
    HalfReceived,
    /// A request was taken from the outbound queue.
    RequestDequeued,
    /// The request's frame was written.
    WriteSucceeded,
    /// Writing the request's frame failed.
    WriteFailed,
    /// The shutdown signal was observed.
    Shutdown,
}

/// What the writer task does next.
#[derive(Debug, Clone, Copy, PartialEq, Eq, Structural)]
pub enum WriterAction {
    /// Wait for the next request of the outbound queue.
    AwaitRequest,
    /// Encode and write the request's frame.
    WriteRequest,
    /// Record the request as pending under its opaque; then wait for the next request.
    RegisterPending,
    /// Complete the request with the write error, abandon the half, ask for a new
    /// connection and wait for its write half.
    FailAndReconnect,
    /// Wait for the next write half.
    AwaitHalf,
    /// Leave the task; queued requests are left to their callers' timeouts.
    Exit,
}

/// The writer task's transitions. Shutdown ends it from any state; a request is
/// registered as pending only after its frame was written; a failed write sends
/// the task back to wait for a new connection.
pub open spec fn writer_next(state: TaskState, event: WriterEvent) -> (TaskState, WriterAction) {
    if state == TaskState::Stopped || event == WriterEvent::Shutdown {
        (TaskState::Stopped, WriterAction::Exit)
    } else if state == TaskState::WaitingForHalf {
        if event == WriterEvent::HalfReceived {
            (TaskState::Streaming, WriterAction::AwaitRequest)
        } else {
            (TaskState::WaitingForHalf, WriterAction::AwaitHalf)
        }
    } else {
        match event {
            WriterEvent::RequestDequeued => (TaskState::Streaming, WriterAction::WriteRequest),
            WriterEvent::WriteSucceeded => (TaskState::Streaming, WriterAction::RegisterPending),
            WriterEvent::WriteFailed => (TaskState::WaitingForHalf, WriterAction::FailAndReconnect),
            _ => (TaskState::Streaming, WriterAction::AwaitRequest),
        }
    }
}

/// The writer task's next state and action.
pub fn writer_step(state: TaskState, event: WriterEvent) -> (r: (TaskState, WriterAction))
    ensures
        r == writer_next(state, event),
{
    if state == TaskState::Stopped || event == WriterEvent::Shutdown {
        return (TaskState::Stopped, WriterAction::Exit);
    }
    match state {
        TaskState::WaitingForHalf => {
            if event == WriterEvent::HalfReceived {
                (TaskState::Streaming, WriterAction::AwaitRequest)
            } else {
                (TaskState::WaitingForHalf, WriterAction::AwaitHalf)
            }
        },
        _ => match event {
            WriterEvent::RequestDequeued => (TaskState::Streaming, WriterAction::WriteRequest),
            WriterEvent::WriteSucceeded => (TaskState::Streaming, WriterAction::RegisterPending),
            WriterEvent::WriteFailed => (TaskState::WaitingForHalf, WriterAction::FailAndReconnect),
            _ => (TaskState::Streaming, WriterAction::AwaitRequest),
        },
    }
}

/// The state of the connection supervisor.
#[derive(Debug, Clone, Copy, PartialEq, Eq, Structural)]
pub enum SupervisorState {
    /// Waiting for a request for a new connection.
    Idle,
    /// A connection attempt is under way.
    Connecting,
    /// Shut down.
    Stopped,
}

/// What the connection supervisor observes.
#[derive(Debug, Clone, Copy, PartialEq, Eq, Structural)]
pub enum SupervisorEvent {
    /// A new connection was asked for.
    Trigger,
    /// The connection attempt succeeded.
    Connected,
    /// The connection attempt failed.
    ConnectFailed,
    /// The shutdown signal was observed.
    Shutdown,
}

/// What the connection supervisor does next.
#[derive(Debug, Clone, Copy, PartialEq, Eq, Structural)]
pub enum SupervisorAction {
    /// Open one new connection to the address: one attempt, no delay.
    Connect,
    /// Split the connection and hand its halves to the reader and the writer.
    HandOverHalves,
    /// Wait for the next request for a connection.
    AwaitTrigger,
    /// Leave the task.
    Exit,
}

/// The supervisor's transitions: one connection attempt per trigger, with no
/// delay and no limit; the halves of a new connection are handed over.
pub open spec fn supervisor_next(state: SupervisorState, event: SupervisorEvent) -> (SupervisorState, SupervisorAction) {
    if state == SupervisorState::Stopped || event == SupervisorEvent::Shutdown {
        (SupervisorState::Stopped, SupervisorAction::Exit)
    } else {
        match event {
            SupervisorEvent::Trigger => (SupervisorState::Connecting, SupervisorAction::Connect),
            SupervisorEvent::Connected => if state == SupervisorState::Connecting {
                (SupervisorState::Idle, SupervisorAction::HandOverHalves)
            } else {
                (SupervisorState::Idle, SupervisorAction::AwaitTrigger)
            },
            _ => (SupervisorState::Idle, SupervisorAction::AwaitTrigger),
        }
    }
}

/// The connection supervisor's next state and action.
pub fn supervisor_step(state: SupervisorState, event: SupervisorEvent) -> (r: (SupervisorState, SupervisorAction))
    ensures
        r == supervisor_next(state, event),
{
    if state == SupervisorState::Stopped || event == SupervisorEvent::Shutdown {
        return (SupervisorState::Stopped, SupervisorAction::Exit);
    }
    match event {
        SupervisorEvent::Trigger => (SupervisorState::Connecting, SupervisorAction::Connect),
        SupervisorEvent::Connected => {
            if state == SupervisorState::Connecting {
                (SupervisorState::Idle, SupervisorAction::HandOverHalves)
            } else {
                (SupervisorState::Idle, SupervisorAction::AwaitTrigger)
            }
        },
        _ => (SupervisorState::Idle, SupervisorAction::AwaitTrigger),
    }
}

/// After a transport drop the channel recovers by itself: the reader asks for a
/// new connection, the supervisor makes one attempt per request and hands the
/// new halves over, and with them reader and writer stream again, so later
/// requests are written and answered without a new channel.
pub proof fn lemma_reconnect_resumes()
    ensures
        reader_next(TaskState::Streaming, ReaderEvent::ReadFailed)
            == (TaskState::WaitingForHalf, ReaderAction::Reconnect),
        writer_next(TaskState::Streaming, WriterEvent::WriteFailed)
            == (TaskState::WaitingForHalf, WriterAction::FailAndReconnect),
        forall|s: SupervisorState| s != SupervisorState::Stopped
            ==> #[trigger] supervisor_next(s, SupervisorEvent::Trigger)
                == (SupervisorState::Connecting, SupervisorAction::Connect),
        supervisor_next(SupervisorState::Connecting, SupervisorEvent::Connected)
            == (SupervisorState::Idle, SupervisorAction::HandOverHalves),
        supervisor_next(SupervisorState::Connecting, SupervisorEvent::ConnectFailed)
            == (SupervisorState::Idle, SupervisorAction::AwaitTrigger),
        reader_next(TaskState::WaitingForHalf, ReaderEvent::HalfReceived)
            == (TaskState::Streaming, ReaderAction::ReadFrame),
        writer_next(TaskState::WaitingForHalf, WriterEvent::HalfReceived)
            == (TaskState::Streaming, WriterAction::AwaitRequest),
        writer_next(TaskState::Streaming, WriterEvent::RequestDequeued)
            == (TaskState::Streaming, WriterAction::WriteRequest),
{
}

/// Shutdown is final: every task leaves on the shutdown signal, from any state,
/// and a stopped task stays stopped whatever it observes.
pub proof fn lemma_shutdown_is_final()
    ensures
        forall|s: TaskState| #[trigger] reader_next(s, ReaderEvent::Shutdown)
            == (TaskState::Stopped, ReaderAction::Exit),
        forall|s: TaskState| #[trigger] writer_next(s, WriterEvent::Shutdown)
            == (TaskState::Stopped, WriterAction::Exit),
        forall|s: SupervisorState| #[trigger] supervisor_next(s, SupervisorEvent::Shutdown)
            == (SupervisorState::Stopped, SupervisorAction::Exit),
        forall|e: ReaderEvent| #[trigger] reader_next(TaskState::Stopped, e)
            == (TaskState::Stopped, ReaderAction::Exit),
        forall|e: WriterEvent| #[trigger] writer_next(TaskState::Stopped, e)
            == (TaskState::Stopped, WriterAction::Exit),
        forall|e: SupervisorEvent| #[trigger] supervisor_next(SupervisorState::Stopped, e)
            == (SupervisorState::Stopped, SupervisorAction::Exit),
{
}

/// A pending request is never registered before its frame is written: in any
/// state, only a successful write leads to registering it.
pub proof fn lemma_register_only_after_write(s: TaskState, e: WriterEvent)
    ensures
        writer_next(s, e).1 == WriterAction::RegisterPending ==> e == WriterEvent::WriteSucceeded,
{
}

/// Matches a decoded response to its request: if a request with the response's
/// opaque is pending, its handle is removed from the table and returned with the
/// response; otherwise the response is dropped and the table is unchanged.
pub fn deliver<H>(table: &mut PendingTable<H>, response: Command) -> (r: Option<(H, Command)>)
    ensures
        final(table)@ == old(table)@.remove(response.header.opaque),
        match r {
            Some((h, c)) => old(table)@.contains_key(response.header.opaque)
                && h == old(table)@[response.header.opaque] && c == response,
            None => !old(table)@.contains_key(response.header.opaque),
        },
{
    match table.take(response.opaque()) {
        Some(h) => Some((h, response)),
        None => None,
    }
}

/// How a caller's wait for its response ended.
pub enum WaitOutcome {
    /// The completion handle was fulfilled with this result.
    Completed(Result<Command, Error>),
    /// The completion handle was dropped without a result.
    Dropped,
    /// The timeout elapsed first.
    TimedOut,
}

/// The result of a request, from how its enqueue attempt and its wait ended.
/// A rejected enqueue fails at once with a write error; no wait takes place.
pub fn request_outcome(enqueued: Result<(), String>, wait: WaitOutcome) -> (r: Result<Command, Error>)
    ensures
        match enqueued {
            Err(reason) => r == Err::<Command, Error>(Error::WriteError(reason)),
            Ok(_) => match wait {
                WaitOutcome::Completed(res) => r == res,
                WaitOutcome::Dropped => r == Err::<Command, Error>(Error::ReadError),
                WaitOutcome::TimedOut => r == Err::<Command, Error>(Error::Timeout),
            },
        },
{
    match enqueued {
        Err(reason) => Err(Error::WriteError(reason)),
        Ok(_) => match wait {
            WaitOutcome::Completed(res) => res,
            WaitOutcome::Dropped => Err(Error::ReadError),
            WaitOutcome::TimedOut => Err(Error::Timeout),
        },
    }
}

/// The number of bytes of the next frame, `total_length` and its own four bytes,
/// from the bytes peeked at the stream; with fewer than four of them, `TryLater`.
pub fn frame_length(peeked: &[u8]) -> (r: Result<u64, Error>)
    ensures
        peeked@.len() < 4 ==> r == Err::<u64, Error>(Error::TryLater),
        peeked@.len() >= 4 ==> r == Ok::<u64, Error>(
            (4 + be_u32(peeked@[0], peeked@[1], peeked@[2], peeked@[3])) as u64,
        ),
{
    if peeked.len() < 4 {
        Err(Error::TryLater)
    } else {
        Ok(4 + read_u32(peeked) as u64)
    }
}

} // verus!
