use gmq_remoting::command::{Command, OpaqueGenerator};
use gmq_remoting::pipeline::{
    deliver, frame_length, reader_step, request_outcome, supervisor_step, writer_step, ReaderAction,
    ReaderEvent, SupervisorAction, SupervisorEvent, SupervisorState, TaskState, WaitOutcome,
    WriterAction, WriterEvent,
};
use gmq_remoting::table::PendingTable;
use gmq_remoting::util::Error;

#[test]
fn responses_in_reverse_order_reach_their_own_callers() {
    let mut table: PendingTable<&str> = PendingTable::new();
    assert_eq!(None, table.register(10, "first"));
    assert_eq!(None, table.register(11, "second"));
    assert_eq!(Some("second"), table.take(11));
    assert_eq!(Some("first"), table.take(10));
    assert_eq!(None, table.take(10));
    assert_eq!(0, table.len());
}

#[test]
fn unknown_opaque_is_dropped() {
    let mut table: PendingTable<u8> = PendingTable::new();
    table.register(1, 5);
    assert_eq!(None, table.take(2));
    assert!(table.contains(1));
    assert_eq!(1, table.len());
}

#[test]
fn take_all_drains_pending_requests() {
    let mut table: PendingTable<u8> = PendingTable::new();
    table.register(1, 5);
    table.register(2, 6);
    assert_eq!(Some(5), table.register(1, 7));
    let all = table.take_all();
    assert_eq!(2, all.len());
    assert_eq!(Some(&7), all.get(&1));
    assert_eq!(0, table.len());
}

#[test]
fn full_queue_fails_fast() {
    let r = request_outcome(Err("queue full".to_string()), WaitOutcome::TimedOut);
    assert_eq!(Err(Error::WriteError("queue full".to_string())), r.map(|c| c.code()));
}

#[test]
fn timed_out_wait_is_timeout() {
    let r = request_outcome(Ok(()), WaitOutcome::TimedOut);
    assert_eq!(Err(Error::Timeout), r.map(|c| c.code()));
    let r = request_outcome(Ok(()), WaitOutcome::Dropped);
    assert_eq!(Err(Error::ReadError), r.map(|c| c.code()));
}

#[test]
fn completed_wait_hands_back_its_result() {
    let mut ids = OpaqueGenerator::new();
    let c = Command::new(9, &mut ids);
    let r = request_outcome(Ok(()), WaitOutcome::Completed(Ok(c)));
    assert_eq!(Ok(9), r.map(|c| c.code()));
    let r = request_outcome(Ok(()), WaitOutcome::Completed(Err(Error::WriteError("x".to_string()))));
    assert_eq!(Err(Error::WriteError("x".to_string())), r.map(|c| c.code()));
}

#[test]
fn reader_reconnects_after_a_drop_and_resumes() {
    let (s, a) = reader_step(TaskState::WaitingForHalf, ReaderEvent::HalfReceived);
    assert_eq!((TaskState::Streaming, ReaderAction::ReadFrame), (s, a));
    assert_eq!((TaskState::Streaming, ReaderAction::ReadFrame), reader_step(s, ReaderEvent::NotReady));
    assert_eq!((TaskState::Streaming, ReaderAction::Deliver), reader_step(s, ReaderEvent::FrameDecoded));
    let (s, a) = reader_step(s, ReaderEvent::ReadFailed);
    assert_eq!((TaskState::WaitingForHalf, ReaderAction::Reconnect), (s, a));

    let (sup, act) = supervisor_step(SupervisorState::Idle, SupervisorEvent::Trigger);
    assert_eq!((SupervisorState::Connecting, SupervisorAction::Connect), (sup, act));
    let (sup, act) = supervisor_step(sup, SupervisorEvent::ConnectFailed);
    assert_eq!((SupervisorState::Idle, SupervisorAction::AwaitTrigger), (sup, act));
    let (sup, _) = supervisor_step(sup, SupervisorEvent::Trigger);
    assert_eq!(
        (SupervisorState::Idle, SupervisorAction::HandOverHalves),
        supervisor_step(sup, SupervisorEvent::Connected)
    );
    assert_eq!((TaskState::Streaming, ReaderAction::ReadFrame), reader_step(s, ReaderEvent::HalfReceived));
}

#[test]
fn writer_registers_only_after_a_successful_write() {
    let (s, a) = writer_step(TaskState::WaitingForHalf, WriterEvent::HalfReceived);
    assert_eq!((TaskState::Streaming, WriterAction::AwaitRequest), (s, a));
    assert_eq!((TaskState::WaitingForHalf, WriterAction::AwaitHalf),
        writer_step(TaskState::WaitingForHalf, WriterEvent::RequestDequeued));
    assert_eq!((TaskState::Streaming, WriterAction::WriteRequest), writer_step(s, WriterEvent::RequestDequeued));
    assert_eq!((TaskState::Streaming, WriterAction::RegisterPending), writer_step(s, WriterEvent::WriteSucceeded));
    assert_eq!((TaskState::WaitingForHalf, WriterAction::FailAndReconnect), writer_step(s, WriterEvent::WriteFailed));
}

#[test]
fn shutdown_stops_every_task() {
    for s in [TaskState::WaitingForHalf, TaskState::Streaming, TaskState::Stopped] {
        assert_eq!((TaskState::Stopped, ReaderAction::Exit), reader_step(s, ReaderEvent::Shutdown));
        assert_eq!((TaskState::Stopped, WriterAction::Exit), writer_step(s, WriterEvent::Shutdown));
    }
    assert_eq!((TaskState::Stopped, ReaderAction::Exit), reader_step(TaskState::Stopped, ReaderEvent::HalfReceived));
    assert_eq!(
        (SupervisorState::Stopped, SupervisorAction::Exit),
        supervisor_step(SupervisorState::Connecting, SupervisorEvent::Shutdown)
    );
}

#[test]
fn frame_length_needs_four_bytes() {
    assert_eq!(Err(Error::TryLater), frame_length(&[0, 0, 1]));
    assert_eq!(Ok(4 + 0x0100), frame_length(&[0, 0, 1, 0]));
    assert_eq!(Ok(4 + u32::MAX as u64), frame_length(&[0xff, 0xff, 0xff, 0xff]));
}

#[test]
fn deliver_matches_by_opaque() {
    let mut ids = OpaqueGenerator::new();
    let a = Command::new(1, &mut ids);
    let b = Command::new(2, &mut ids);
    let mut table: PendingTable<&str> = PendingTable::new();
    table.register(a.opaque(), "a");
    table.register(b.opaque(), "b");
    let (h, c) = deliver(&mut table, b).unwrap();
    assert_eq!(("b", 2), (h, c.code()));
    let (h, c) = deliver(&mut table, a).unwrap();
    assert_eq!(("a", 1), (h, c.code()));
    let stray = Command::new(3, &mut ids);
    assert!(deliver(&mut table, stray).is_none());
    assert_eq!(0, table.len());
}
