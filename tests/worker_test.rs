use ffmpeg_bus::worker::{reader_step, worker_step, ReaderAction, ReaderEvent, WorkerAction, WorkerEvent};

#[test]
fn reader_actions() {
    assert_eq!(reader_step(ReaderEvent::Packet), ReaderAction::Publish);
    assert_eq!(reader_step(ReaderEvent::End), ReaderAction::PublishEofAndExit);
    assert_eq!(reader_step(ReaderEvent::Cancelled), ReaderAction::Exit);
}

#[test]
fn worker_actions() {
    assert_eq!(worker_step(WorkerEvent::Idle), WorkerAction::Wait);
    assert_eq!(worker_step(WorkerEvent::Data), WorkerAction::SubmitAndDrain);
    assert_eq!(worker_step(WorkerEvent::Eof), WorkerAction::FlushAndExit);
    assert_eq!(worker_step(WorkerEvent::Cancelled), WorkerAction::PublishEofAndExit);
    assert_eq!(worker_step(WorkerEvent::Fatal), WorkerAction::PublishEofAndExit);
}
