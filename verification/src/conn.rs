//! One TCP client: its reader loop, its writer loop, and its place in the
//! registry.

use vstd::prelude::*;
use vstd::string::StringExecFns;
use crate::addr::PeerAddr;
use crate::buffer::{bytes_as_slice, bytes_view};
use crate::link::WAIT_MS;
use crate::queue::bounded_queue;
use crate::state::{after_insert, after_remove, SharedState};

verus! {

/// How the last command of a client's reader went.
#[derive(Clone, Copy, Debug, PartialEq, Eq, Structural)]
pub enum ClientReaderEvent {
    /// The loop begins.
    Started,
    /// The read brought bytes.
    Data,
    /// The read brought nothing: the peer closed.
    Closed,
    /// The read would have blocked.
    WouldBlock,
    /// The read failed otherwise.
    ReadFailed,
    /// The buffer is in the ingress queue.
    Enqueued,
    /// The ingress queue has no receiver any more.
    IngressClosed,
    /// The reader has given way to other threads.
    Yielded,
}

/// What a client's reader does next.
#[derive(Clone, Copy, Debug, PartialEq, Eq, Structural)]
pub enum ClientReaderCommand {
    /// Read without blocking.
    Read,
    /// Put the bytes just read into the ingress queue, waiting for room.
    Enqueue,
    /// Give way to other threads.
    Yield,
    /// Leave the loop: the client is gone.
    Exit,
}

/// One step of a client's reader, which is `done` once it has left its loop:
/// whether it is done afterwards, and what it does next.
pub open spec fn client_reader_step(done: bool, event: ClientReaderEvent, stop: bool) -> (
    bool,
    ClientReaderCommand,
) {
    if done {
        (true, ClientReaderCommand::Exit)
    } else {
        match event {
            ClientReaderEvent::Data => (false, ClientReaderCommand::Enqueue),
            ClientReaderEvent::Closed | ClientReaderEvent::ReadFailed | ClientReaderEvent::IngressClosed => (
                true,
                ClientReaderCommand::Exit,
            ),
            ClientReaderEvent::WouldBlock => if stop {
                (true, ClientReaderCommand::Exit)
            } else {
                (false, ClientReaderCommand::Yield)
            },
            _ => if stop {
                (true, ClientReaderCommand::Exit)
            } else {
                (false, ClientReaderCommand::Read)
            },
        }
    }
}

/// Whether `event` reports on `command`.
pub open spec fn client_reader_answers(command: ClientReaderCommand, event: ClientReaderEvent) -> bool {
    match command {
        ClientReaderCommand::Read => event == ClientReaderEvent::Data || event
            == ClientReaderEvent::Closed || event == ClientReaderEvent::WouldBlock || event
            == ClientReaderEvent::ReadFailed,
        ClientReaderCommand::Enqueue => event == ClientReaderEvent::Enqueued || event
            == ClientReaderEvent::IngressClosed,
        ClientReaderCommand::Yield => event == ClientReaderEvent::Yielded,
        ClientReaderCommand::Exit => false,
    }
}

/// The reader loop of one TCP client: stream to ingress queue.
#[derive(Clone, Copy, Debug)]
pub struct ClientReader {
    done: bool,
}

impl ClientReader {
    /// Whether the reader has left its loop.
    pub closed spec fn spec_done(&self) -> bool {
        self.done
    }

    /// A reader at the start of its loop.
    pub fn new() -> (r: Self)
        ensures
            !r.done(),
    {
        ClientReader { done: false }
    }

    /// Whether the reader has left its loop.
    #[verifier::when_used_as_spec(spec_done)]
    pub fn done(&self) -> (d: bool)
        ensures
            d == self.spec_done(),
    {
        self.done
    }

    /// Takes the report on the last command and says what to do next.
    pub fn step(&mut self, event: ClientReaderEvent, stop: bool) -> (command: ClientReaderCommand)
        ensures
            (final(self).done(), command) == client_reader_step(old(self).done(), event, stop),
    {
        if self.done {
            return ClientReaderCommand::Exit;
        }
        let command = match event {
            ClientReaderEvent::Data => ClientReaderCommand::Enqueue,
            ClientReaderEvent::Closed => ClientReaderCommand::Exit,
            ClientReaderEvent::ReadFailed => ClientReaderCommand::Exit,
            ClientReaderEvent::IngressClosed => ClientReaderCommand::Exit,
            ClientReaderEvent::WouldBlock => if stop {
                ClientReaderCommand::Exit
            } else {
                ClientReaderCommand::Yield
            },
            _ => if stop {
                ClientReaderCommand::Exit
            } else {
                ClientReaderCommand::Read
            },
        };
        if let ClientReaderCommand::Exit = command {
            self.done = true;
        }
        command
    }
}

/// How the last command of a client's writer went. `B` is what a buffer is to
/// the one who speaks: the buffer itself to the loop, its bytes to a contract.
#[derive(Debug)]
pub enum ClientWriterEvent<B> {
    /// The loop begins.
    Started,
    /// The outbound queue handed over a buffer.
    Received(B),
    /// The outbound queue stayed empty for `WAIT_MS`.
    ReceiveTimedOut,
    /// Every sender of the outbound queue is gone.
    QueueClosed,
    /// The buffer was written whole.
    Written,
    /// The write failed.
    WriteFailed,
}

/// What a client's writer does next.
#[derive(Clone, Copy, Debug, PartialEq, Eq, Structural)]
pub enum ClientWriterCommand {
    /// Wait up to `WAIT_MS` for a buffer from the outbound queue.
    Receive,
    /// Write the held buffer whole.
    Write,
    /// Leave the loop.
    Exit,
}

/// A client's writer as contracts see it.
pub struct ClientWriterModel {
    /// Whether the writer has left its loop.
    pub done: bool,
    /// The bytes of the buffer that is being written, if one is.
    pub held: Option<Seq<u8>>,
}

/// One step of a client's writer.
pub open spec fn client_writer_step(
    m: ClientWriterModel,
    event: ClientWriterEvent<Seq<u8>>,
    stop: bool,
) -> (ClientWriterModel, ClientWriterCommand) {
    if m.done {
        (m, ClientWriterCommand::Exit)
    } else {
        match event {
            ClientWriterEvent::Received(b) => (
                ClientWriterModel { done: false, held: Some(b) },
                ClientWriterCommand::Write,
            ),
            ClientWriterEvent::QueueClosed | ClientWriterEvent::WriteFailed => (
                ClientWriterModel { done: true, held: None },
                ClientWriterCommand::Exit,
            ),
            _ => if stop {
                (ClientWriterModel { done: true, held: None }, ClientWriterCommand::Exit)
            } else {
                (ClientWriterModel { done: false, held: None }, ClientWriterCommand::Receive)
            },
        }
    }
}

/// Whether `event` reports on `command`.
pub open spec fn client_writer_answers(
    command: ClientWriterCommand,
    event: ClientWriterEvent<Seq<u8>>,
) -> bool {
    match command {
        ClientWriterCommand::Receive => event is Received || event is ReceiveTimedOut || event
            is QueueClosed,
        ClientWriterCommand::Write => event is Written || event is WriteFailed,
        ClientWriterCommand::Exit => false,
    }
}

/// The bytes of an event's buffer in place of the buffer.
pub open spec fn client_event_view(event: ClientWriterEvent<bytes::Bytes>) -> ClientWriterEvent<
    Seq<u8>,
> {
    match event {
        ClientWriterEvent::Started => ClientWriterEvent::Started,
        ClientWriterEvent::Received(b) => ClientWriterEvent::Received(bytes_view(b)),
        ClientWriterEvent::ReceiveTimedOut => ClientWriterEvent::ReceiveTimedOut,
        ClientWriterEvent::QueueClosed => ClientWriterEvent::QueueClosed,
        ClientWriterEvent::Written => ClientWriterEvent::Written,
        ClientWriterEvent::WriteFailed => ClientWriterEvent::WriteFailed,
    }
}

impl ClientWriterCommand {
    /// The longest this command waits, in milliseconds.
    pub fn wait_ms(&self) -> (ms: u64)
        ensures
            ms == if *self == ClientWriterCommand::Receive {
                WAIT_MS
            } else {
                0
            },
    {
        match self {
            ClientWriterCommand::Receive => WAIT_MS,
            _ => 0,
        }
    }
}

/// The writer loop of one TCP client: outbound queue to stream.
pub struct ClientWriter {
    done: bool,
    held: Option<bytes::Bytes>,
}

impl View for ClientWriter {
    type V = ClientWriterModel;

    closed spec fn view(&self) -> ClientWriterModel {
        ClientWriterModel {
            done: self.done,
            held: match self.held {
                Some(b) => Some(bytes_view(b)),
                None => None,
            },
        }
    }
}

impl ClientWriter {
    /// A writer at the start of its loop.
    pub fn new() -> (w: Self)
        ensures
            w@ == (ClientWriterModel { done: false, held: None }),
    {
        ClientWriter { done: false, held: None }
    }

    /// Whether the writer has left its loop.
    pub fn done(&self) -> (d: bool)
        ensures
            d == self@.done,
    {
        self.done
    }

    /// The bytes to write when the command is `Write`.
    pub fn held(&self) -> (bytes: Option<&[u8]>)
        ensures
            bytes is Some <==> self@.held is Some,
            bytes is Some ==> bytes->Some_0@ == self@.held->Some_0,
    {
        match &self.held {
            Some(b) => Some(bytes_as_slice(b)),
            None => None,
        }
    }

    /// Takes the report on the last command and says what to do next.
    pub fn step(&mut self, event: ClientWriterEvent<bytes::Bytes>, stop: bool) -> (command:
        ClientWriterCommand)
        ensures
            (final(self)@, command) == client_writer_step(old(self)@, client_event_view(event), stop),
    {
        if self.done {
            return ClientWriterCommand::Exit;
        }
        match event {
            ClientWriterEvent::Received(b) => {
                self.held = Some(b);
                ClientWriterCommand::Write
            },
            ClientWriterEvent::QueueClosed => {
                self.done = true;
                self.held = None;
                ClientWriterCommand::Exit
            },
            ClientWriterEvent::WriteFailed => {
                self.done = true;
                self.held = None;
                ClientWriterCommand::Exit
            },
            _ => {
                self.held = None;
                if stop {
                    self.done = true;
                    ClientWriterCommand::Exit
                } else {
                    ClientWriterCommand::Receive
                }
            },
        }
    }
}

/// The notice that a client has connected.
pub open spec fn connected_text(label: Seq<char>) -> Seq<char> {
    "Connected: "@ + label
}

/// The notice that a client has disconnected.
pub open spec fn disconnected_text(label: Seq<char>) -> Seq<char> {
    "Disconnected: "@ + label
}

/// Takes a client in: makes its outbound queue with room for `capacity`
/// buffers, registers the sending end under `addr`, and hands back the
/// receiving end for the client's writer together with the notice to publish.
/// `label` is the address as it is shown to people.
pub fn open_connection(registry: &mut SharedState, addr: PeerAddr, label: &str, capacity: usize) -> (out:
    (crossbeam_channel::Receiver<bytes::Bytes>, String))
    ensures
        final(registry).peers() == after_insert(old(registry).peers(), addr),
        out.1@ == connected_text(label@),
{
    let (tx, rx) = bounded_queue(capacity);
    registry.insert(addr, tx);
    let notice = String::from_str("Connected: ").concat(label);
    (rx, notice)
}

/// Lets a client go once its reader has ended: drops its entry, and with it
/// the registry's sending end of its outbound queue, and hands back the notice
/// to publish.
pub fn close_connection(registry: &mut SharedState, addr: PeerAddr, label: &str) -> (notice: String)
    ensures
        final(registry).peers() == after_remove(old(registry).peers(), addr),
        notice@ == disconnected_text(label@),
{
    registry.remove(&addr);
    String::from_str("Disconnected: ").concat(label)
}

/// The buffers that a client's writer asks to have written, in order, while
/// it takes `events` one after the other and the stop signal stays down.
pub open spec fn client_writes(m: ClientWriterModel, events: Seq<ClientWriterEvent<Seq<u8>>>) -> Seq<
    Seq<u8>,
>
    decreases events.len(),
{
    if events.len() == 0 {
        Seq::empty()
    } else {
        let (next, command) = client_writer_step(m, events.first(), false);
        let rest = client_writes(next, events.drop_first());
        if command == ClientWriterCommand::Write && next.held is Some {
            seq![next.held->Some_0] + rest
        } else {
            rest
        }
    }
}

/// The buffers that `events` hand over, in order.
pub open spec fn client_received(events: Seq<ClientWriterEvent<Seq<u8>>>) -> Seq<Seq<u8>>
    decreases events.len(),
{
    if events.len() == 0 {
        Seq::empty()
    } else {
        let rest = client_received(events.drop_first());
        match events.first() {
            ClientWriterEvent::Received(b) => seq![b] + rest,
            _ => rest,
        }
    }
}

/// While no write fails and its queue stays open, a client's writer asks for
/// each buffer it receives to be written exactly once, in the order in which
/// the buffers were enqueued.
pub proof fn client_writer_forwards_in_order(
    m: ClientWriterModel,
    events: Seq<ClientWriterEvent<Seq<u8>>>,
)
    requires
        !m.done,
        forall|i: int|
            0 <= i < events.len() ==> !(#[trigger] events[i] is WriteFailed) && !(events[i]
                is QueueClosed),
    ensures
        client_writes(m, events) == client_received(events),
    decreases events.len(),
{
    if events.len() > 0 {
        let (next, command) = client_writer_step(m, events.first(), false);
        assert(!(events[0] is WriteFailed) && !(events[0] is QueueClosed));
        assert forall|i: int| 0 <= i < events.drop_first().len() implies !(
        #[trigger] events.drop_first()[i] is WriteFailed) && !(events.drop_first()[i]
            is QueueClosed) by {
            assert(events.drop_first()[i] == events[i + 1]);
        }
        client_writer_forwards_in_order(next, events.drop_first());
    }
}

/// A client's reader asks for an enqueue exactly when a read brought bytes,
/// whether or not the stop signal is set: what was read is never dropped by
/// the reader itself.
pub proof fn client_reader_enqueues_what_it_reads(done: bool, event: ClientReaderEvent, stop: bool)
    ensures
        client_reader_step(done, event, stop).1 == ClientReaderCommand::Enqueue <==> !done && event
            == ClientReaderEvent::Data,
{
}

/// Once the stop signal is set, a client's reader leaves its loop at the
/// latest one report after the next.
pub proof fn stop_ends_client_reader(done: bool, first: ClientReaderEvent, second: ClientReaderEvent)
    requires
        client_reader_answers(client_reader_step(done, first, true).1, second),
    ensures
        client_reader_step(client_reader_step(done, first, true).0, second, true) == (
            true,
            ClientReaderCommand::Exit,
        ),
{
}

/// Once the stop signal is set, a client's writer leaves its loop at the
/// latest one report after the next.
pub proof fn stop_ends_client_writer(
    m: ClientWriterModel,
    first: ClientWriterEvent<Seq<u8>>,
    second: ClientWriterEvent<Seq<u8>>,
)
    requires
        client_writer_answers(client_writer_step(m, first, true).1, second),
    ensures
        client_writer_step(client_writer_step(m, first, true).0, second, true).1
            == ClientWriterCommand::Exit,
        client_writer_step(client_writer_step(m, first, true).0, second, true).0.done,
{
}

} // verus!
