//! The serial half: what the reader loop and the writer loop do next.
//!
//! Each loop is a small machine. The caller performs the command a step hands
//! out (a read, a write, a reopen, a pause) and reports how it went as the next
//! event. The stop signal is looked at only where an iteration begins.

use vstd::prelude::*;
use vstd::string::StringExecFns;
use crate::buffer::{bytes_as_slice, bytes_view};

verus! {

/// How long a blocking receive or a device read may wait, in milliseconds.
pub const WAIT_MS: u64 = 200;

/// How long a loop rests after a failed reopen, in milliseconds.
pub const RETRY_MS: u64 = 1000;

/// The most bytes one read asks for.
pub const READ_CHUNK: usize = 4096;

/// Where a serial loop stands.
#[derive(Clone, Copy, Debug, PartialEq, Eq, Structural)]
pub enum LinkState {
    /// The device is open and traffic flows.
    Running,
    /// The device failed; the first reopen is due.
    Degraded,
    /// A reopen failed; another follows after a rest.
    Reopening,
    /// The loop has ended and does nothing more.
    Terminated,
}

/// A notice for whoever watches the gateway.
#[derive(Clone, Copy, Debug, PartialEq, Eq, Structural)]
pub enum Status {
    /// The reader lost the device.
    SerialDisconnected,
    /// The reader has the device again.
    ReaderReconnected,
    /// The writer could not write.
    WriteFailed,
    /// The writer has the device again.
    WriterReconnected,
}

/// The wording of a notice.
pub open spec fn status_text(s: Status) -> Seq<char> {
    match s {
        Status::SerialDisconnected => "Serial: disconnected, attempting reconnect..."@,
        Status::ReaderReconnected => "Serial: reconnected (reader)"@,
        Status::WriteFailed => "Serial: write failed, reconnecting writer..."@,
        Status::WriterReconnected => "Serial: reconnected (writer)"@,
    }
}

impl Status {
    /// The wording of this notice.
    pub fn text(&self) -> (s: String)
        ensures
            s@ == status_text(*self),
    {
        match self {
            Status::SerialDisconnected => String::from_str(
                "Serial: disconnected, attempting reconnect...",
            ),
            Status::ReaderReconnected => String::from_str("Serial: reconnected (reader)"),
            Status::WriteFailed => String::from_str("Serial: write failed, reconnecting writer..."),
            Status::WriterReconnected => String::from_str("Serial: reconnected (writer)"),
        }
    }
}

/// How the reader's last command went.
#[derive(Clone, Copy, Debug, PartialEq, Eq, Structural)]
pub enum ReaderEvent {
    /// The loop begins.
    Started,
    /// The read brought bytes.
    Data,
    /// The read brought nothing, or timed out.
    Idle,
    /// The read failed with a broken pipe.
    BrokenPipe,
    /// The read failed otherwise.
    ReadFailed,
    /// The device was opened.
    Reopened,
    /// The device could not be opened.
    ReopenFailed,
    /// The rest is over.
    Rested,
}

/// What the reader does next.
#[derive(Clone, Copy, Debug, PartialEq, Eq, Structural)]
pub enum ReaderCommand {
    /// Read up to `READ_CHUNK` bytes, waiting at most `WAIT_MS`.
    Read,
    /// Open the device anew and take it as the reader's handle.
    Reopen,
    /// Rest for `RETRY_MS`.
    Rest,
    /// Leave the loop.
    Exit,
}

/// The outcome of one step of the reader.
#[derive(Clone, Copy, Debug, PartialEq, Eq, Structural)]
pub struct ReaderStep {
    /// Where the reader stands now.
    pub state: LinkState,
    /// What to do next.
    pub command: ReaderCommand,
    /// A notice to publish, if any.
    pub status: Option<Status>,
}

/// The start of a reader iteration in `state`: leave if the stop signal is
/// set, else read when running and reopen otherwise.
pub open spec fn reader_turn(state: LinkState, stop: bool) -> (LinkState, ReaderCommand) {
    if stop || state == LinkState::Terminated {
        (LinkState::Terminated, ReaderCommand::Exit)
    } else if state == LinkState::Running {
        (state, ReaderCommand::Read)
    } else {
        (state, ReaderCommand::Reopen)
    }
}

/// One step of the reader.
pub open spec fn reader_step(state: LinkState, event: ReaderEvent, stop: bool) -> ReaderStep {
    if state == LinkState::Terminated {
        ReaderStep { state, command: ReaderCommand::Exit, status: None }
    } else if state == LinkState::Running && (event == ReaderEvent::BrokenPipe || event
        == ReaderEvent::ReadFailed) {
        let (next, command) = reader_turn(LinkState::Degraded, stop);
        ReaderStep {
            state: next,
            command,
            status: if event == ReaderEvent::BrokenPipe {
                Some(Status::SerialDisconnected)
            } else {
                None
            },
        }
    } else if state != LinkState::Running && event == ReaderEvent::Reopened {
        let (next, command) = reader_turn(LinkState::Running, stop);
        ReaderStep { state: next, command, status: Some(Status::ReaderReconnected) }
    } else if state != LinkState::Running && event == ReaderEvent::ReopenFailed {
        ReaderStep { state: LinkState::Reopening, command: ReaderCommand::Rest, status: None }
    } else {
        let (next, command) = reader_turn(state, stop);
        ReaderStep { state: next, command, status: None }
    }
}

/// Whether `event` reports on `command`.
pub open spec fn reader_answers(command: ReaderCommand, event: ReaderEvent) -> bool {
    match command {
        ReaderCommand::Read => event == ReaderEvent::Data || event == ReaderEvent::Idle || event
            == ReaderEvent::BrokenPipe || event == ReaderEvent::ReadFailed,
        ReaderCommand::Reopen => event == ReaderEvent::Reopened || event == ReaderEvent::ReopenFailed,
        ReaderCommand::Rest => event == ReaderEvent::Rested,
        ReaderCommand::Exit => false,
    }
}

/// The longest the reader is held up by a command, in milliseconds.
pub open spec fn reader_wait(command: ReaderCommand) -> int {
    match command {
        ReaderCommand::Read => WAIT_MS as int,
        ReaderCommand::Rest => RETRY_MS as int,
        _ => 0,
    }
}

impl ReaderCommand {
    /// The longest this command holds the loop up, in milliseconds: the read
    /// timeout for a read, the rest between two reopens, nothing otherwise.
    pub fn wait_ms(&self) -> (ms: u64)
        ensures
            ms == reader_wait(*self),
    {
        match self {
            ReaderCommand::Read => WAIT_MS,
            ReaderCommand::Rest => RETRY_MS,
            _ => 0,
        }
    }
}

/// The serial reader loop: device to registry.
#[derive(Clone, Copy, Debug)]
pub struct SerialReader {
    state: LinkState,
}

impl SerialReader {
    /// Where the reader stands.
    pub closed spec fn spec_state(&self) -> LinkState {
        self.state
    }

    /// A reader whose device is open.
    pub fn new() -> (r: Self)
        ensures
            r.state() == LinkState::Running,
    {
        SerialReader { state: LinkState::Running }
    }

    /// Where the reader stands.
    #[verifier::when_used_as_spec(spec_state)]
    pub fn state(&self) -> (s: LinkState)
        ensures
            s == self.spec_state(),
    {
        self.state
    }

    /// Takes the report on the last command and says what to do next.
    pub fn step(&mut self, event: ReaderEvent, stop: bool) -> (out: ReaderStep)
        ensures
            out == reader_step(old(self).state(), event, stop),
            final(self).state() == out.state,
    {
        let out = match (self.state, event) {
            (LinkState::Terminated, _) => ReaderStep {
                state: LinkState::Terminated,
                command: ReaderCommand::Exit,
                status: None,
            },
            (LinkState::Running, ReaderEvent::BrokenPipe) => Self::turn(
                LinkState::Degraded,
                stop,
                Some(Status::SerialDisconnected),
            ),
            (LinkState::Running, ReaderEvent::ReadFailed) => Self::turn(
                LinkState::Degraded,
                stop,
                None,
            ),
            (LinkState::Running, _) => Self::turn(LinkState::Running, stop, None),
            (_, ReaderEvent::Reopened) => Self::turn(
                LinkState::Running,
                stop,
                Some(Status::ReaderReconnected),
            ),
            (_, ReaderEvent::ReopenFailed) => ReaderStep {
                state: LinkState::Reopening,
                command: ReaderCommand::Rest,
                status: None,
            },
            (state, _) => Self::turn(state, stop, None),
        };
        self.state = out.state;
        out
    }

    fn turn(state: LinkState, stop: bool, status: Option<Status>) -> (out: ReaderStep)
        ensures
            out.state == reader_turn(state, stop).0,
            out.command == reader_turn(state, stop).1,
            out.status == status,
    {
        if stop {
            ReaderStep { state: LinkState::Terminated, command: ReaderCommand::Exit, status }
        } else {
            match state {
                LinkState::Terminated => ReaderStep { state, command: ReaderCommand::Exit, status },
                LinkState::Running => ReaderStep { state, command: ReaderCommand::Read, status },
                _ => ReaderStep { state, command: ReaderCommand::Reopen, status },
            }
        }
    }
}

/// How the writer's last command went. `B` is what a buffer is to the one who
/// speaks: the buffer itself to the loop, its bytes to a contract.
#[derive(Debug)]
pub enum WriterEvent<B> {
    /// The loop begins.
    Started,
    /// The queue handed over a buffer.
    Received(B),
    /// The queue stayed empty for `WAIT_MS`.
    ReceiveTimedOut,
    /// Every sender of the queue is gone.
    QueueClosed,
    /// The buffer was written whole.
    Written,
    /// The write failed.
    WriteFailed,
    /// The device was opened.
    Reopened,
    /// The device could not be opened.
    ReopenFailed,
    /// The rest is over.
    Rested,
    /// The second attempt at the buffer is over, however it went.
    Retried,
}

/// What the writer does next.
#[derive(Clone, Copy, Debug, PartialEq, Eq, Structural)]
pub enum WriterCommand {
    /// Wait up to `WAIT_MS` for a buffer from the queue.
    Receive,
    /// Write the held buffer whole.
    Write,
    /// Open the device anew and take it as the writer's handle.
    Reopen,
    /// Rest for `RETRY_MS`.
    Rest,
    /// Write the held buffer once more and flush, whatever comes of it.
    Retry,
    /// Leave the loop.
    Exit,
}

/// The outcome of one step of the writer.
#[derive(Clone, Copy, Debug, PartialEq, Eq, Structural)]
pub struct WriterStep {
    /// What to do next.
    pub command: WriterCommand,
    /// A notice to publish, if any.
    pub status: Option<Status>,
}

/// The writer as contracts see it: where it stands and the bytes it holds.
pub struct WriterModel {
    /// Where the writer stands.
    pub state: LinkState,
    /// The bytes of the buffer that is being written, if one is.
    pub held: Option<Seq<u8>>,
}

/// The start of a writer iteration in `state`: leave if the stop signal is
/// set, else receive when running and reopen otherwise.
pub open spec fn writer_turn(state: LinkState, stop: bool) -> (LinkState, WriterCommand) {
    if stop || state == LinkState::Terminated {
        (LinkState::Terminated, WriterCommand::Exit)
    } else if state == LinkState::Running {
        (state, WriterCommand::Receive)
    } else {
        (state, WriterCommand::Reopen)
    }
}

/// One step of the writer: the writer afterwards, and what it asks for.
pub open spec fn writer_step(m: WriterModel, event: WriterEvent<Seq<u8>>, stop: bool) -> (
    WriterModel,
    WriterStep,
) {
    if m.state == LinkState::Terminated {
        (m, WriterStep { command: WriterCommand::Exit, status: None })
    } else if m.state == LinkState::Running {
        match event {
            WriterEvent::Received(b) => (
                WriterModel { state: LinkState::Running, held: Some(b) },
                WriterStep { command: WriterCommand::Write, status: None },
            ),
            WriterEvent::QueueClosed => (
                WriterModel { state: LinkState::Terminated, held: None },
                WriterStep { command: WriterCommand::Exit, status: None },
            ),
            WriterEvent::WriteFailed => {
                let (next, command) = writer_turn(LinkState::Degraded, stop);
                (
                    WriterModel { state: next, held: m.held },
                    WriterStep { command, status: Some(Status::WriteFailed) },
                )
            },
            _ => {
                let (next, command) = writer_turn(LinkState::Running, stop);
                (WriterModel { state: next, held: None }, WriterStep { command, status: None })
            },
        }
    } else {
        match event {
            WriterEvent::Reopened => if m.held is Some {
                (
                    WriterModel { state: LinkState::Running, held: m.held },
                    WriterStep {
                        command: WriterCommand::Retry,
                        status: Some(Status::WriterReconnected),
                    },
                )
            } else {
                let (next, command) = writer_turn(LinkState::Running, stop);
                (
                    WriterModel { state: next, held: None },
                    WriterStep { command, status: Some(Status::WriterReconnected) },
                )
            },
            WriterEvent::ReopenFailed => (
                WriterModel { state: LinkState::Reopening, held: m.held },
                WriterStep { command: WriterCommand::Rest, status: None },
            ),
            _ => {
                let (next, command) = writer_turn(m.state, stop);
                (WriterModel { state: next, held: m.held }, WriterStep { command, status: None })
            },
        }
    }
}

/// Whether `event` reports on `command`.
pub open spec fn writer_answers(command: WriterCommand, event: WriterEvent<Seq<u8>>) -> bool {
    match command {
        WriterCommand::Receive => event is Received || event is ReceiveTimedOut || event
            is QueueClosed,
        WriterCommand::Write => event is Written || event is WriteFailed,
        WriterCommand::Reopen => event is Reopened || event is ReopenFailed,
        WriterCommand::Rest => event is Rested,
        WriterCommand::Retry => event is Retried,
        WriterCommand::Exit => false,
    }
}

/// The longest the writer is held up by a command before it looks at the stop
/// signal again, in milliseconds.
pub open spec fn writer_wait(command: WriterCommand) -> int {
    match command {
        WriterCommand::Receive => WAIT_MS as int,
        WriterCommand::Rest => RETRY_MS as int,
        _ => 0,
    }
}

impl WriterCommand {
    /// The longest this command waits, in milliseconds: the bound of a receive,
    /// the rest between two reopens, nothing otherwise.
    pub fn wait_ms(&self) -> (ms: u64)
        ensures
            ms == writer_wait(*self),
    {
        match self {
            WriterCommand::Receive => WAIT_MS,
            WriterCommand::Rest => RETRY_MS,
            _ => 0,
        }
    }
}

/// The bytes of an event's buffer in place of the buffer.
pub open spec fn event_view(event: WriterEvent<bytes::Bytes>) -> WriterEvent<Seq<u8>> {
    match event {
        WriterEvent::Started => WriterEvent::Started,
        WriterEvent::Received(b) => WriterEvent::Received(bytes_view(b)),
        WriterEvent::ReceiveTimedOut => WriterEvent::ReceiveTimedOut,
        WriterEvent::QueueClosed => WriterEvent::QueueClosed,
        WriterEvent::Written => WriterEvent::Written,
        WriterEvent::WriteFailed => WriterEvent::WriteFailed,
        WriterEvent::Reopened => WriterEvent::Reopened,
        WriterEvent::ReopenFailed => WriterEvent::ReopenFailed,
        WriterEvent::Rested => WriterEvent::Rested,
        WriterEvent::Retried => WriterEvent::Retried,
    }
}

/// The serial writer loop: ingress queue to device.
pub struct SerialWriter {
    state: LinkState,
    held: Option<bytes::Bytes>,
}

impl View for SerialWriter {
    type V = WriterModel;

    closed spec fn view(&self) -> WriterModel {
        WriterModel {
            state: self.state,
            held: match self.held {
                Some(b) => Some(bytes_view(b)),
                None => None,
            },
        }
    }
}

impl SerialWriter {
    /// A writer whose device is open and which holds no buffer.
    pub fn new() -> (w: Self)
        ensures
            w@ == (WriterModel { state: LinkState::Running, held: None }),
    {
        SerialWriter { state: LinkState::Running, held: None }
    }

    /// Where the writer stands.
    pub fn state(&self) -> (s: LinkState)
        ensures
            s == self@.state,
    {
        self.state
    }

    /// The bytes to write when the command is `Write` or `Retry`.
    pub fn held(&self) -> (bytes: Option<&[u8]>)
        ensures
            bytes is Some <==> self@.held is Some,
            bytes is Some ==> bytes->Some_0@ == self@.held->Some_0,
    {
        match &self.held {
            Some(b) => Some(bytes_as_slice(b)),
            None => None,
        }
    }

    /// Takes the report on the last command and says what to do next.
    pub fn step(&mut self, event: WriterEvent<bytes::Bytes>, stop: bool) -> (out: WriterStep)
        ensures
            (final(self)@, out) == writer_step(old(self)@, event_view(event), stop),
    {
        if let LinkState::Terminated = self.state {
            return WriterStep { command: WriterCommand::Exit, status: None };
        }
        if let LinkState::Running = self.state {
            match event {
                WriterEvent::Received(b) => {
                    self.held = Some(b);
                    WriterStep { command: WriterCommand::Write, status: None }
                },
                WriterEvent::QueueClosed => {
                    self.state = LinkState::Terminated;
                    self.held = None;
                    WriterStep { command: WriterCommand::Exit, status: None }
                },
                WriterEvent::WriteFailed => {
                    let command = self.turn(LinkState::Degraded, stop);
                    WriterStep { command, status: Some(Status::WriteFailed) }
                },
                _ => {
                    self.held = None;
                    let command = self.turn(LinkState::Running, stop);
                    WriterStep { command, status: None }
                },
            }
        } else {
            match event {
                WriterEvent::Reopened => {
                    if self.held.is_some() {
                        self.state = LinkState::Running;
                        WriterStep {
                            command: WriterCommand::Retry,
                            status: Some(Status::WriterReconnected),
                        }
                    } else {
                        let command = self.turn(LinkState::Running, stop);
                        WriterStep { command, status: Some(Status::WriterReconnected) }
                    }
                },
                WriterEvent::ReopenFailed => {
                    self.state = LinkState::Reopening;
                    WriterStep { command: WriterCommand::Rest, status: None }
                },
                _ => {
                    let state = self.state;
                    let command = self.turn(state, stop);
                    WriterStep { command, status: None }
                },
            }
        }
    }

    fn turn(&mut self, state: LinkState, stop: bool) -> (command: WriterCommand)
        ensures
            final(self).state == writer_turn(state, stop).0,
            command == writer_turn(state, stop).1,
            final(self).held == old(self).held,
    {
        if stop {
            self.state = LinkState::Terminated;
            WriterCommand::Exit
        } else {
            self.state = state;
            match state {
                LinkState::Terminated => WriterCommand::Exit,
                LinkState::Running => WriterCommand::Receive,
                _ => WriterCommand::Reopen,
            }
        }
    }
}

/// The buffers that the writer asks to have written, in order, while it takes
/// `events` one after the other and the stop signal stays down.
pub open spec fn writer_writes(m: WriterModel, events: Seq<WriterEvent<Seq<u8>>>) -> Seq<Seq<u8>>
    decreases events.len(),
{
    if events.len() == 0 {
        Seq::empty()
    } else {
        let (next, out) = writer_step(m, events.first(), false);
        let rest = writer_writes(next, events.drop_first());
        if (out.command == WriterCommand::Write || out.command == WriterCommand::Retry) && next.held
            is Some {
            seq![next.held->Some_0] + rest
        } else {
            rest
        }
    }
}

/// The buffers that `events` hand over, in order.
pub open spec fn buffers_received(events: Seq<WriterEvent<Seq<u8>>>) -> Seq<Seq<u8>>
    decreases events.len(),
{
    if events.len() == 0 {
        Seq::empty()
    } else {
        let rest = buffers_received(events.drop_first());
        match events.first() {
            WriterEvent::Received(b) => seq![b] + rest,
            _ => rest,
        }
    }
}

/// While no write fails and the queue stays open, a running writer asks for
/// each buffer it receives to be written exactly once, in the order of arrival.
pub proof fn steady_writer_forwards_in_order(m: WriterModel, events: Seq<WriterEvent<Seq<u8>>>)
    requires
        m.state == LinkState::Running,
        forall|i: int|
            0 <= i < events.len() ==> !(#[trigger] events[i] is WriteFailed) && !(events[i]
                is QueueClosed),
    ensures
        writer_writes(m, events) == buffers_received(events),
    decreases events.len(),
{
    if events.len() > 0 {
        let (next, out) = writer_step(m, events.first(), false);
        assert(!(events[0] is WriteFailed) && !(events[0] is QueueClosed));
        assert(next.state == LinkState::Running);
        assert forall|i: int| 0 <= i < events.drop_first().len() implies !(
        #[trigger] events.drop_first()[i] is WriteFailed) && !(events.drop_first()[i]
            is QueueClosed) by {
            assert(events.drop_first()[i] == events[i + 1]);
        }
        steady_writer_forwards_in_order(next, events.drop_first());
    }
}

/// A buffer whose write failed is kept through every failed reopen and every
/// rest, is written once more when the device is back, and is then let go: the
/// writer returns to the queue whatever came of the second attempt.
pub proof fn failed_buffer_is_retried_once(m: WriterModel, buffer: Seq<u8>, stop: bool)
    requires
        m.state == LinkState::Degraded || m.state == LinkState::Reopening,
        m.held == Some(buffer),
    ensures
        writer_step(m, WriterEvent::ReopenFailed, stop).0.held == Some(buffer),
        writer_step(m, WriterEvent::ReopenFailed, stop).1.command == WriterCommand::Rest,
        writer_step(m, WriterEvent::Rested, stop).0.held == Some(buffer),
        writer_step(m, WriterEvent::Reopened, stop).0 == (WriterModel {
            state: LinkState::Running,
            held: Some(buffer),
        }),
        writer_step(m, WriterEvent::Reopened, stop).1 == (WriterStep {
            command: WriterCommand::Retry,
            status: Some(Status::WriterReconnected),
        }),
        writer_step(writer_step(m, WriterEvent::Reopened, stop).0, WriterEvent::Retried, false)
            == (
            WriterModel { state: LinkState::Running, held: None },
            WriterStep { command: WriterCommand::Receive, status: None },
        ),
{
}

/// Once the stop signal is set, the writer leaves its loop at the latest one
/// report after the next: a command that is under way when the signal comes is
/// seen through, and the step that takes its report ends the loop. No receive
/// and no reopen is begun in between, and nothing holds the loop up for longer
/// than a rest.
pub proof fn stop_ends_writer(m: WriterModel, first: WriterEvent<Seq<u8>>, second: WriterEvent<Seq<u8>>)
    requires
        writer_answers(writer_step(m, first, true).1.command, second),
    ensures
        writer_step(writer_step(m, first, true).0, second, true).1.command == WriterCommand::Exit,
        writer_step(writer_step(m, first, true).0, second, true).0.state == LinkState::Terminated,
        writer_wait(writer_step(m, first, true).1.command) <= RETRY_MS,
        writer_step(m, first, true).1.command != WriterCommand::Receive,
        writer_step(m, first, true).1.command != WriterCommand::Reopen,
{
}

/// Once the stop signal is set, the reader leaves its loop at the latest one
/// report after the next. No read and no reopen is begun in between, and
/// nothing holds the loop up for longer than a rest.
pub proof fn stop_ends_reader(state: LinkState, first: ReaderEvent, second: ReaderEvent)
    requires
        reader_answers(reader_step(state, first, true).command, second),
    ensures
        reader_step(reader_step(state, first, true).state, second, true).command
            == ReaderCommand::Exit,
        reader_step(reader_step(state, first, true).state, second, true).state
            == LinkState::Terminated,
        reader_wait(reader_step(state, first, true).command) <= RETRY_MS,
        reader_step(state, first, true).command != ReaderCommand::Read,
        reader_step(state, first, true).command != ReaderCommand::Reopen,
{
}

/// A reader that has not been told to stop and has not ended never asks to
/// leave: nothing but the stop signal ends its loop.
pub proof fn only_stop_ends_reader(state: LinkState, event: ReaderEvent)
    requires
        state != LinkState::Terminated,
    ensures
        reader_step(state, event, false).command != ReaderCommand::Exit,
        reader_step(state, event, false).state != LinkState::Terminated,
{
}

/// A writer that has not been told to stop and has not ended asks to leave
/// only when its queue has closed.
pub proof fn only_stop_or_closed_queue_ends_writer(m: WriterModel, event: WriterEvent<Seq<u8>>)
    requires
        m.state != LinkState::Terminated,
        !(event is QueueClosed),
    ensures
        writer_step(m, event, false).1.command != WriterCommand::Exit,
        writer_step(m, event, false).0.state != LinkState::Terminated,
{
}

/// A reader that lost the device asks for a reopen, rests for `RETRY_MS` after
/// each failed one and asks again, and reads again as soon as one succeeds.
pub proof fn reader_reattaches(state: LinkState, failure: ReaderEvent)
    requires
        failure == ReaderEvent::BrokenPipe || failure == ReaderEvent::ReadFailed,
    ensures
        reader_step(LinkState::Running, failure, false).state == LinkState::Degraded,
        reader_step(LinkState::Running, failure, false).command == ReaderCommand::Reopen,
        state == LinkState::Degraded || state == LinkState::Reopening ==> {
            &&& reader_step(state, ReaderEvent::ReopenFailed, false) == (ReaderStep {
                state: LinkState::Reopening,
                command: ReaderCommand::Rest,
                status: None,
            })
            &&& reader_step(LinkState::Reopening, ReaderEvent::Rested, false).command
                == ReaderCommand::Reopen
            &&& reader_step(state, ReaderEvent::Reopened, false) == (ReaderStep {
                state: LinkState::Running,
                command: ReaderCommand::Read,
                status: Some(Status::ReaderReconnected),
            })
        },
{
}

} // verus!
