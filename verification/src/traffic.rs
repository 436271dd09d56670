//! What happens to bytes on their way through the gateway.

use vstd::prelude::*;
use crate::addr::PeerAddr;
use crate::buffer::{bytes_from_slice, bytes_share, bytes_view};
use crate::counters::{tally_after, Counters};
use crate::inspector::{DirectionTag, Sample};
use crate::conn::{client_reader_step, ClientReader, ClientReaderCommand, ClientReaderEvent};
use crate::link::{reader_step, LinkState, ReaderEvent, ReaderStep, SerialReader};
use crate::queue::offer;
use crate::state::{after_broadcast, report_distinct, report_peers, Delivery, SharedState};

verus! {

/// Shows the inspector a chunk of traffic, if one is attached. The sample is
/// dropped when the inspector's queue is full or gone.
fn publish_sample(
    inspector: Option<&crossbeam_channel::Sender<Sample>>,
    dir: DirectionTag,
    data: &bytes::Bytes,
) {
    if let Some(tx) = inspector {
        let _ = offer(tx, Sample { dir, data: bytes_share(data) });
    }
}

/// Handles what one read from the serial device brought. Nothing happens for
/// an empty read. Otherwise the bytes are counted as outbound, shown to the
/// inspector, copied into a fresh buffer and broadcast to every registered
/// client; the report says what became of each offer, and clients that could
/// not take the buffer are gone from the registry.
pub fn serial_bytes_in(
    data: &[u8],
    counters: &mut Counters,
    registry: &mut SharedState,
    inspector: Option<&crossbeam_channel::Sender<Sample>>,
) -> (report: Vec<Delivery>)
    ensures
        final(counters).bytes_in() == old(counters).bytes_in(),
        data@.len() == 0 ==> {
            &&& report@.len() == 0
            &&& final(counters).bytes_out() == old(counters).bytes_out()
            &&& final(registry).peers() == old(registry).peers()
        },
        data@.len() > 0 ==> {
            &&& final(counters).bytes_out() == tally_after(old(counters).bytes_out(), data.len())
            &&& report_distinct(report@)
            &&& report_peers(report@) == old(registry).peers()
            &&& final(registry).peers() == after_broadcast(old(registry).peers(), report@)
        },
{
    if data.len() == 0 {
        return Vec::new();
    }
    counters.add_out(data.len());
    let buffer = bytes_from_slice(data);
    publish_sample(inspector, DirectionTag::Inbound, &buffer);
    registry.broadcast(buffer)
}

/// Handles what one read from a TCP client brought: the bytes are counted as
/// inbound, copied into a fresh buffer and shown to the inspector. The buffer
/// that comes back is the one to put into the ingress queue.
pub fn client_bytes_in(
    data: &[u8],
    peer: PeerAddr,
    counters: &mut Counters,
    inspector: Option<&crossbeam_channel::Sender<Sample>>,
) -> (buffer: bytes::Bytes)
    ensures
        bytes_view(buffer) == data@,
        final(counters).bytes_in() == tally_after(old(counters).bytes_in(), data.len()),
        final(counters).bytes_out() == old(counters).bytes_out(),
{
    counters.add_in(data.len());
    let buffer = bytes_from_slice(data);
    publish_sample(inspector, DirectionTag::Outbound(peer), &buffer);
    buffer
}

/// How a read from the serial device ended.
#[derive(Clone, Copy, Debug, PartialEq, Eq, Structural)]
pub enum SerialRead {
    /// It returned, with the bytes it brought; there may be none.
    Returned,
    /// It timed out.
    TimedOut,
    /// It failed with a broken pipe.
    BrokenPipe,
    /// It failed otherwise.
    Failed,
}

/// How a read from a TCP client ended.
#[derive(Clone, Copy, Debug, PartialEq, Eq, Structural)]
pub enum ClientRead {
    /// It returned, with the bytes it brought; none means the peer closed.
    Returned,
    /// It would have blocked.
    WouldBlock,
    /// It failed otherwise.
    Failed,
}

/// What a read from the serial device that brought `len` bytes is to the
/// reader: an empty or timed-out read counts for nothing.
pub open spec fn serial_read_event(outcome: SerialRead, len: int) -> ReaderEvent {
    match outcome {
        SerialRead::Returned => if len > 0 {
            ReaderEvent::Data
        } else {
            ReaderEvent::Idle
        },
        SerialRead::TimedOut => ReaderEvent::Idle,
        SerialRead::BrokenPipe => ReaderEvent::BrokenPipe,
        SerialRead::Failed => ReaderEvent::ReadFailed,
    }
}

/// What a read from a TCP client that brought `len` bytes is to the client's
/// reader: an empty read means that the peer has closed.
pub open spec fn client_read_event(outcome: ClientRead, len: int) -> ClientReaderEvent {
    match outcome {
        ClientRead::Returned => if len > 0 {
            ClientReaderEvent::Data
        } else {
            ClientReaderEvent::Closed
        },
        ClientRead::WouldBlock => ClientReaderEvent::WouldBlock,
        ClientRead::Failed => ClientReaderEvent::ReadFailed,
    }
}

/// Whether the bytes of a read are passed on: they are when a running reader
/// is brought at least one.
pub open spec fn serial_read_counts(state: LinkState, outcome: SerialRead, len: int) -> bool {
    state == LinkState::Running && serial_read_event(outcome, len) == ReaderEvent::Data
}

/// One turn of the serial reader after a read: `data` is what the read
/// brought, empty unless it returned. Bytes that a running reader was brought
/// go the way of `serial_bytes_in`; nothing is counted or broadcast otherwise.
/// Then the reader takes its step, as `reader_step` has it.
pub fn serial_read_done(
    reader: &mut SerialReader,
    outcome: SerialRead,
    data: &[u8],
    counters: &mut Counters,
    registry: &mut SharedState,
    inspector: Option<&crossbeam_channel::Sender<Sample>>,
    stop: bool,
) -> (out: (ReaderStep, Vec<Delivery>))
    ensures
        out.0 == reader_step(old(reader).state(), serial_read_event(outcome, data@.len() as int), stop),
        final(reader).state() == out.0.state,
        final(counters).bytes_in() == old(counters).bytes_in(),
        serial_read_counts(old(reader).state(), outcome, data@.len() as int) ==> {
            &&& final(counters).bytes_out() == tally_after(old(counters).bytes_out(), data.len())
            &&& report_distinct(out.1@)
            &&& report_peers(out.1@) == old(registry).peers()
            &&& final(registry).peers() == after_broadcast(old(registry).peers(), out.1@)
        },
        !serial_read_counts(old(reader).state(), outcome, data@.len() as int) ==> {
            &&& out.1@.len() == 0
            &&& final(counters).bytes_out() == old(counters).bytes_out()
            &&& final(registry).peers() == old(registry).peers()
        },
{
    let event = match outcome {
        SerialRead::Returned => if data.len() > 0 {
            ReaderEvent::Data
        } else {
            ReaderEvent::Idle
        },
        SerialRead::TimedOut => ReaderEvent::Idle,
        SerialRead::BrokenPipe => ReaderEvent::BrokenPipe,
        SerialRead::Failed => ReaderEvent::ReadFailed,
    };
    let counts = match (reader.state(), event) {
        (LinkState::Running, ReaderEvent::Data) => true,
        _ => false,
    };
    let report = if counts {
        serial_bytes_in(data, counters, registry, inspector)
    } else {
        Vec::new()
    };
    let step = reader.step(event, stop);
    (step, report)
}

/// One turn of a client's reader after a read: `data` is what the read
/// brought, empty unless it returned. The reader takes its step, as
/// `client_reader_step` has it; where that asks for an enqueue, the bytes go
/// the way of `client_bytes_in` and the buffer to enqueue comes back.
pub fn client_read_done(
    reader: &mut ClientReader,
    outcome: ClientRead,
    data: &[u8],
    peer: PeerAddr,
    counters: &mut Counters,
    inspector: Option<&crossbeam_channel::Sender<Sample>>,
    stop: bool,
) -> (out: (ClientReaderCommand, Option<bytes::Bytes>))
    ensures
        (final(reader).done(), out.0) == client_reader_step(
            old(reader).done(),
            client_read_event(outcome, data@.len() as int),
            stop,
        ),
        final(counters).bytes_out() == old(counters).bytes_out(),
        out.1 is Some <==> out.0 == ClientReaderCommand::Enqueue,
        out.1 matches Some(buffer) ==> bytes_view(buffer) == data@ && final(counters).bytes_in()
            == tally_after(old(counters).bytes_in(), data.len()),
        out.1 is None ==> final(counters).bytes_in() == old(counters).bytes_in(),
{
    let event = match outcome {
        ClientRead::Returned => if data.len() > 0 {
            ClientReaderEvent::Data
        } else {
            ClientReaderEvent::Closed
        },
        ClientRead::WouldBlock => ClientReaderEvent::WouldBlock,
        ClientRead::Failed => ClientReaderEvent::ReadFailed,
    };
    let command = reader.step(event, stop);
    let buffer = match command {
        ClientReaderCommand::Enqueue => Some(client_bytes_in(data, peer, counters, inspector)),
        _ => None,
    };
    (command, buffer)
}

} // verus!
