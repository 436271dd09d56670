use bytes::Bytes;
use sergw::link::{
    LinkState, ReaderCommand, ReaderEvent, SerialReader, SerialWriter, Status, WriterCommand,
    WriterEvent, READ_CHUNK, RETRY_MS, WAIT_MS,
};

#[test]
fn reader_reads_while_the_device_is_fine() {
    let mut r = SerialReader::new();
    assert_eq!(r.state(), LinkState::Running);
    for event in [ReaderEvent::Started, ReaderEvent::Data, ReaderEvent::Idle, ReaderEvent::Data] {
        let step = r.step(event, false);
        assert_eq!(step.command, ReaderCommand::Read);
        assert_eq!(step.state, LinkState::Running);
        assert_eq!(step.status, None);
    }
}

#[test]
fn reader_reattaches_after_the_device_vanished() {
    let mut r = SerialReader::new();
    r.step(ReaderEvent::Started, false);

    let step = r.step(ReaderEvent::BrokenPipe, false);
    assert_eq!(step.command, ReaderCommand::Reopen);
    assert_eq!(step.state, LinkState::Degraded);
    assert_eq!(step.status, Some(Status::SerialDisconnected));

    let step = r.step(ReaderEvent::ReopenFailed, false);
    assert_eq!(step.command, ReaderCommand::Rest);
    assert_eq!(step.state, LinkState::Reopening);
    assert_eq!(step.command.wait_ms(), 1000);

    let step = r.step(ReaderEvent::Rested, false);
    assert_eq!(step.command, ReaderCommand::Reopen);

    let step = r.step(ReaderEvent::Reopened, false);
    assert_eq!(step.command, ReaderCommand::Read);
    assert_eq!(step.state, LinkState::Running);
    assert_eq!(step.status, Some(Status::ReaderReconnected));
    assert_eq!(r.state(), LinkState::Running);
}

#[test]
fn reader_goes_quietly_into_reopening_on_other_errors() {
    let mut r = SerialReader::new();
    let step = r.step(ReaderEvent::ReadFailed, false);
    assert_eq!(step.command, ReaderCommand::Reopen);
    assert_eq!(step.state, LinkState::Degraded);
    assert_eq!(step.status, None);
}

#[test]
fn reader_stops_at_the_next_iteration() {
    let mut r = SerialReader::new();
    assert_eq!(r.step(ReaderEvent::Started, false).command, ReaderCommand::Read);
    let step = r.step(ReaderEvent::Data, true);
    assert_eq!(step.command, ReaderCommand::Exit);
    assert_eq!(step.state, LinkState::Terminated);
    assert_eq!(r.step(ReaderEvent::Data, false).command, ReaderCommand::Exit);
}

#[test]
fn reader_stops_while_reopening_after_its_rest() {
    let mut r = SerialReader::new();
    r.step(ReaderEvent::BrokenPipe, false);
    assert_eq!(r.step(ReaderEvent::ReopenFailed, true).command, ReaderCommand::Rest);
    assert_eq!(r.step(ReaderEvent::Rested, true).command, ReaderCommand::Exit);
    assert_eq!(r.state(), LinkState::Terminated);
}

#[test]
fn reader_announces_the_loss_even_when_stopping() {
    let mut r = SerialReader::new();
    let step = r.step(ReaderEvent::BrokenPipe, true);
    assert_eq!(step.command, ReaderCommand::Exit);
    assert_eq!(step.status, Some(Status::SerialDisconnected));
}

#[test]
fn waits_are_bounded_as_stated() {
    assert_eq!(WAIT_MS, 200);
    assert_eq!(RETRY_MS, 1000);
    assert_eq!(READ_CHUNK, 4096);
    assert_eq!(ReaderCommand::Read.wait_ms(), 200);
    assert_eq!(ReaderCommand::Rest.wait_ms(), 1000);
    assert_eq!(ReaderCommand::Reopen.wait_ms(), 0);
    assert_eq!(ReaderCommand::Exit.wait_ms(), 0);
    assert_eq!(WriterCommand::Receive.wait_ms(), 200);
    assert_eq!(WriterCommand::Rest.wait_ms(), 1000);
    assert_eq!(WriterCommand::Write.wait_ms(), 0);
    assert_eq!(WriterCommand::Retry.wait_ms(), 0);
}

#[test]
fn status_wording() {
    assert_eq!(Status::SerialDisconnected.text(), "Serial: disconnected, attempting reconnect...");
    assert_eq!(Status::ReaderReconnected.text(), "Serial: reconnected (reader)");
    assert_eq!(Status::WriteFailed.text(), "Serial: write failed, reconnecting writer...");
    assert_eq!(Status::WriterReconnected.text(), "Serial: reconnected (writer)");
}

#[test]
fn writer_writes_each_buffer_once_in_order() {
    let mut w = SerialWriter::new();
    assert_eq!(w.state(), LinkState::Running);
    assert_eq!(w.step(WriterEvent::Started, false).command, WriterCommand::Receive);
    let mut written: Vec<Vec<u8>> = Vec::new();
    for chunk in [&b"hel"[..], &b"lo"[..], &b"!"[..]] {
        let step = w.step(WriterEvent::Received(Bytes::copy_from_slice(chunk)), false);
        assert_eq!(step.command, WriterCommand::Write);
        written.push(w.held().unwrap().to_vec());
        let step = w.step(WriterEvent::Written, false);
        assert_eq!(step.command, WriterCommand::Receive);
        assert!(w.held().is_none());
        assert_eq!(w.step(WriterEvent::ReceiveTimedOut, false).command, WriterCommand::Receive);
    }
    assert_eq!(written, vec![b"hel".to_vec(), b"lo".to_vec(), b"!".to_vec()]);
}

#[test]
fn writer_retries_the_failed_buffer_once_after_reopening() {
    let mut w = SerialWriter::new();
    w.step(WriterEvent::Started, false);
    w.step(WriterEvent::Received(Bytes::from_static(b"kept")), false);

    let step = w.step(WriterEvent::WriteFailed, false);
    assert_eq!(step.command, WriterCommand::Reopen);
    assert_eq!(step.status, Some(Status::WriteFailed));
    assert_eq!(w.state(), LinkState::Degraded);

    let step = w.step(WriterEvent::ReopenFailed, false);
    assert_eq!(step.command, WriterCommand::Rest);
    assert_eq!(w.state(), LinkState::Reopening);
    assert_eq!(w.step(WriterEvent::Rested, false).command, WriterCommand::Reopen);
    assert_eq!(w.held().unwrap(), b"kept");

    let step = w.step(WriterEvent::Reopened, false);
    assert_eq!(step.command, WriterCommand::Retry);
    assert_eq!(step.status, Some(Status::WriterReconnected));
    assert_eq!(w.held().unwrap(), b"kept");
    assert_eq!(w.state(), LinkState::Running);

    let step = w.step(WriterEvent::Retried, false);
    assert_eq!(step.command, WriterCommand::Receive);
    assert!(w.held().is_none());
}

#[test]
fn writer_ends_when_the_queue_closes() {
    let mut w = SerialWriter::new();
    w.step(WriterEvent::Started, false);
    let step = w.step(WriterEvent::QueueClosed, false);
    assert_eq!(step.command, WriterCommand::Exit);
    assert_eq!(w.state(), LinkState::Terminated);
    assert_eq!(
        w.step(WriterEvent::Received(Bytes::from_static(b"late")), false).command,
        WriterCommand::Exit
    );
    assert!(w.held().is_none());
}

#[test]
fn writer_sees_a_write_through_before_it_stops() {
    let mut w = SerialWriter::new();
    w.step(WriterEvent::Started, false);
    let step = w.step(WriterEvent::Received(Bytes::from_static(b"last")), true);
    assert_eq!(step.command, WriterCommand::Write);
    assert_eq!(w.held().unwrap(), b"last");
    assert_eq!(w.step(WriterEvent::Written, true).command, WriterCommand::Exit);
    assert_eq!(w.state(), LinkState::Terminated);
}

#[test]
fn writer_stops_while_reopening() {
    let mut w = SerialWriter::new();
    w.step(WriterEvent::Received(Bytes::from_static(b"b")), false);
    assert_eq!(w.step(WriterEvent::WriteFailed, true).command, WriterCommand::Exit);

    let mut w = SerialWriter::new();
    w.step(WriterEvent::Received(Bytes::from_static(b"b")), false);
    w.step(WriterEvent::WriteFailed, false);
    assert_eq!(w.step(WriterEvent::ReopenFailed, true).command, WriterCommand::Rest);
    assert_eq!(w.step(WriterEvent::Rested, true).command, WriterCommand::Exit);
}
