use bytes::Bytes;
use crossbeam_channel::{bounded, unbounded};
use sergw::addr::PeerAddr;
use sergw::counters::Counters;
use sergw::inspector::{DirectionTag, Sample};
use sergw::queue::SendOutcome;
use sergw::state::SharedState;
use sergw::conn::{ClientReader, ClientReaderCommand};
use sergw::link::{LinkState, ReaderCommand, SerialReader, Status};
use sergw::traffic::{
    client_bytes_in, client_read_done, serial_bytes_in, serial_read_done, ClientRead, SerialRead,
};

#[test]
fn serial_bytes_are_counted_sampled_and_broadcast() {
    let mut counters = Counters::new();
    let mut registry = SharedState::new();
    let (tx, rx) = bounded::<Bytes>(4);
    let addr = PeerAddr::v4(127, 0, 0, 1, 7000);
    registry.insert(addr, tx);
    let (insp_tx, insp_rx) = bounded::<Sample>(4);

    let report = serial_bytes_in(b"world", &mut counters, &mut registry, Some(&insp_tx));

    assert_eq!(report.len(), 1);
    assert_eq!(report[0].peer, addr);
    assert_eq!(report[0].outcome, SendOutcome::Delivered);
    assert_eq!(counters.bytes_out(), 5);
    assert_eq!(counters.bytes_in(), 0);
    assert_eq!(rx.try_recv().unwrap(), Bytes::from_static(b"world"));
    let sample = insp_rx.try_recv().unwrap();
    assert_eq!(sample.dir, DirectionTag::Inbound);
    assert_eq!(sample.data, Bytes::from_static(b"world"));
}

#[test]
fn an_empty_serial_read_is_ignored() {
    let mut counters = Counters::new();
    let mut registry = SharedState::new();
    let (tx, rx) = bounded::<Bytes>(4);
    registry.insert(PeerAddr::v4(127, 0, 0, 1, 7000), tx);
    let (insp_tx, insp_rx) = bounded::<Sample>(4);

    let report = serial_bytes_in(b"", &mut counters, &mut registry, Some(&insp_tx));

    assert!(report.is_empty());
    assert_eq!(counters.bytes_out(), 0);
    assert!(rx.try_recv().is_err());
    assert!(insp_rx.try_recv().is_err());
    assert_eq!(registry.len(), 1);
}

#[test]
fn a_full_inspector_queue_loses_the_sample_and_nothing_else() {
    let mut counters = Counters::new();
    let mut registry = SharedState::new();
    let (tx, rx) = unbounded::<Bytes>();
    registry.insert(PeerAddr::v4(127, 0, 0, 1, 7000), tx);
    let (insp_tx, insp_rx) = bounded::<Sample>(1);

    serial_bytes_in(b"a", &mut counters, &mut registry, Some(&insp_tx));
    serial_bytes_in(b"bc", &mut counters, &mut registry, Some(&insp_tx));
    serial_bytes_in(b"def", &mut counters, &mut registry, None);

    assert_eq!(counters.bytes_out(), 6);
    assert_eq!(rx.try_recv().unwrap(), Bytes::from_static(b"a"));
    assert_eq!(rx.try_recv().unwrap(), Bytes::from_static(b"bc"));
    assert_eq!(rx.try_recv().unwrap(), Bytes::from_static(b"def"));
    assert_eq!(insp_rx.try_recv().unwrap().data, Bytes::from_static(b"a"));
    assert!(insp_rx.try_recv().is_err());
}

#[test]
fn client_bytes_are_counted_sampled_and_handed_back() {
    let mut counters = Counters::new();
    let peer = PeerAddr::v4(10, 1, 2, 3, 555);
    let (insp_tx, insp_rx) = bounded::<Sample>(4);

    let buffer = client_bytes_in(b"hello", peer, &mut counters, Some(&insp_tx));

    assert_eq!(buffer, Bytes::from_static(b"hello"));
    assert_eq!(counters.bytes_in(), 5);
    assert_eq!(counters.bytes_out(), 0);
    let sample = insp_rx.try_recv().unwrap();
    assert_eq!(sample.dir, DirectionTag::Outbound(peer));
    assert_eq!(sample.data, Bytes::from_static(b"hello"));

    let buffer = client_bytes_in(b"!!", peer, &mut counters, None);
    assert_eq!(buffer, Bytes::from_static(b"!!"));
    assert_eq!(counters.bytes_in(), 7);
}

#[test]
fn counters_start_at_zero_and_only_grow() {
    let mut c = Counters::default();
    assert_eq!((c.bytes_in(), c.bytes_out()), (0, 0));
    let mut last = (0u64, 0u64);
    for n in [0usize, 1, 4096, 17] {
        c.add_in(n);
        c.add_out(2 * n);
        assert!(c.bytes_in() >= last.0 && c.bytes_out() >= last.1);
        last = (c.bytes_in(), c.bytes_out());
    }
    assert_eq!(last, (4114, 8228));
}

#[test]
fn a_counter_wraps_at_sixty_four_bits() {
    let mut c = Counters::new();
    c.add_in(usize::MAX);
    c.add_in(1);
    let expected = (usize::MAX as u64).wrapping_add(1);
    assert_eq!(c.bytes_in(), expected);
    assert_eq!(c.bytes_out(), 0);
}

#[test]
fn a_serial_read_that_brought_bytes_is_broadcast_and_the_reader_reads_on() {

    let mut reader = SerialReader::new();
    let mut counters = Counters::new();
    let mut registry = SharedState::new();
    let (tx, rx) = bounded::<Bytes>(4);
    let addr = PeerAddr::v4(127, 0, 0, 1, 7000);
    registry.insert(addr, tx);

    let (step, report) =
        serial_read_done(&mut reader, SerialRead::Returned, b"abc", &mut counters, &mut registry, None, false);
    assert_eq!(step.command, ReaderCommand::Read);
    assert_eq!(report.len(), 1);
    assert_eq!(counters.bytes_out(), 3);
    assert_eq!(rx.try_recv().unwrap(), Bytes::from_static(b"abc"));

    for outcome in [SerialRead::Returned, SerialRead::TimedOut] {
        let (step, report) =
            serial_read_done(&mut reader, outcome, b"", &mut counters, &mut registry, None, false);
        assert_eq!(step.command, ReaderCommand::Read);
        assert!(report.is_empty());
    }
    assert_eq!(counters.bytes_out(), 3);
    assert!(rx.try_recv().is_err());

    // Bytes that came with the stop signal are still passed on.
    let (step, report) =
        serial_read_done(&mut reader, SerialRead::Returned, b"z", &mut counters, &mut registry, None, true);
    assert_eq!(step.command, ReaderCommand::Exit);
    assert_eq!(report.len(), 1);
    assert_eq!(rx.try_recv().unwrap(), Bytes::from_static(b"z"));
    assert_eq!(reader.state(), LinkState::Terminated);

    // A reader that has ended passes nothing on.
    let (step, report) =
        serial_read_done(&mut reader, SerialRead::Returned, b"late", &mut counters, &mut registry, None, false);
    assert_eq!(step.command, ReaderCommand::Exit);
    assert!(report.is_empty());
    assert_eq!(counters.bytes_out(), 4);
}

#[test]
fn a_failed_serial_read_sends_the_reader_to_reopen() {

    let mut counters = Counters::new();
    let mut registry = SharedState::new();
    let mut reader = SerialReader::new();
    let (step, report) = serial_read_done(
        &mut reader,
        SerialRead::BrokenPipe,
        b"",
        &mut counters,
        &mut registry,
        None,
        false,
    );
    assert_eq!(step.command, ReaderCommand::Reopen);
    assert_eq!(step.status, Some(Status::SerialDisconnected));
    assert_eq!(step.state, LinkState::Degraded);
    assert!(report.is_empty());

    let mut reader = SerialReader::new();
    let (step, _) =
        serial_read_done(&mut reader, SerialRead::Failed, b"", &mut counters, &mut registry, None, false);
    assert_eq!(step.command, ReaderCommand::Reopen);
    assert_eq!(step.status, None);
}

#[test]
fn a_client_read_is_enqueued_or_ends_the_reader() {

    let peer = PeerAddr::v4(10, 1, 2, 3, 555);
    let mut counters = Counters::new();
    let mut reader = ClientReader::new();

    let (command, buffer) =
        client_read_done(&mut reader, ClientRead::Returned, b"hello", peer, &mut counters, None, true);
    assert_eq!(command, ClientReaderCommand::Enqueue);
    assert_eq!(buffer.unwrap(), Bytes::from_static(b"hello"));
    assert_eq!(counters.bytes_in(), 5);

    let (command, buffer) =
        client_read_done(&mut reader, ClientRead::WouldBlock, b"", peer, &mut counters, None, false);
    assert_eq!(command, ClientReaderCommand::Yield);
    assert!(buffer.is_none());

    let (command, buffer) =
        client_read_done(&mut reader, ClientRead::Returned, b"", peer, &mut counters, None, false);
    assert_eq!(command, ClientReaderCommand::Exit);
    assert!(buffer.is_none());
    assert!(reader.done());
    assert_eq!(counters.bytes_in(), 5);

    let (command, buffer) =
        client_read_done(&mut reader, ClientRead::Returned, b"late", peer, &mut counters, None, false);
    assert_eq!(command, ClientReaderCommand::Exit);
    assert!(buffer.is_none());
    assert_eq!(counters.bytes_in(), 5);

    let mut reader = ClientReader::new();
    let (command, _) =
        client_read_done(&mut reader, ClientRead::Failed, b"", peer, &mut counters, None, false);
    assert_eq!(command, ClientReaderCommand::Exit);
}
