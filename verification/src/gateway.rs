//! The supervisor: the order of its steps, its accept loop, and how the
//! gateway announces itself.

use vstd::prelude::*;
use vstd::string::{StrSliceExecFns, StringExecFns};
use crate::text::push_char;

verus! {

/// How long the accept loop rests when no client is waiting, in milliseconds.
pub const ACCEPT_IDLE_MS: u64 = 50;

/// The steps of a gateway run, in the order in which they are taken.
#[derive(Clone, Copy, Debug, PartialEq, Eq, Structural)]
pub enum Phase {
    /// Have the interrupt signal set the stop signal.
    InstallSignal,
    /// Settle on the serial port.
    ResolvePort,
    /// Open the serial device and clone a handle for the writer.
    OpenSerial,
    /// Make the ingress queue, the registry and the counters.
    BuildQueues,
    /// Start the serial reader and the serial writer.
    SpawnSerialLoops,
    /// Bind the listener, without blocking.
    Bind,
    /// Advertise the service, where that is wanted.
    Advertise,
    /// Accept clients until the stop signal is set.
    Accept,
    /// Drop the listener.
    DropListener,
    /// Wait for the serial reader and the serial writer.
    JoinSerialLoops,
    /// Empty the registry.
    DisposeRegistry,
    /// Wait for the display.
    JoinDisplay,
    /// The run is over.
    Done,
    /// The run could not start.
    Failed,
}

/// Whether a failure of this step ends the run. The interrupt handler and the
/// advertisement are done without; every other step before the accept loop is
/// needed.
pub open spec fn is_fatal(phase: Phase) -> bool {
    phase == Phase::ResolvePort || phase == Phase::OpenSerial || phase == Phase::Bind
}

/// The step after `phase` when that step went well.
pub open spec fn phase_after(phase: Phase) -> Phase {
    match phase {
        Phase::InstallSignal => Phase::ResolvePort,
        Phase::ResolvePort => Phase::OpenSerial,
        Phase::OpenSerial => Phase::BuildQueues,
        Phase::BuildQueues => Phase::SpawnSerialLoops,
        Phase::SpawnSerialLoops => Phase::Bind,
        Phase::Bind => Phase::Advertise,
        Phase::Advertise => Phase::Accept,
        Phase::Accept => Phase::DropListener,
        Phase::DropListener => Phase::JoinSerialLoops,
        Phase::JoinSerialLoops => Phase::DisposeRegistry,
        Phase::DisposeRegistry => Phase::JoinDisplay,
        Phase::JoinDisplay => Phase::Done,
        Phase::Done => Phase::Done,
        Phase::Failed => Phase::Failed,
    }
}

/// The step after `phase`, given whether that step went well.
pub open spec fn next_phase_spec(phase: Phase, ok: bool) -> Phase {
    if !ok && is_fatal(phase) {
        Phase::Failed
    } else {
        phase_after(phase)
    }
}

/// The step to take after `phase`, given whether that step went well.
pub fn next_phase(phase: Phase, ok: bool) -> (next: Phase)
    ensures
        next == next_phase_spec(phase, ok),
{
    match phase {
        Phase::InstallSignal => Phase::ResolvePort,
        Phase::ResolvePort => if ok {
            Phase::OpenSerial
        } else {
            Phase::Failed
        },
        Phase::OpenSerial => if ok {
            Phase::BuildQueues
        } else {
            Phase::Failed
        },
        Phase::BuildQueues => Phase::SpawnSerialLoops,
        Phase::SpawnSerialLoops => Phase::Bind,
        Phase::Bind => if ok {
            Phase::Advertise
        } else {
            Phase::Failed
        },
        Phase::Advertise => Phase::Accept,
        Phase::Accept => Phase::DropListener,
        Phase::DropListener => Phase::JoinSerialLoops,
        Phase::JoinSerialLoops => Phase::DisposeRegistry,
        Phase::DisposeRegistry => Phase::JoinDisplay,
        Phase::JoinDisplay => Phase::Done,
        Phase::Done => Phase::Done,
        Phase::Failed => Phase::Failed,
    }
}

/// Once the accept loop has ended, the run winds down in one order whatever
/// comes of each step: the listener goes first, the serial loops are waited
/// for, only then is the registry emptied, and the display is waited for last.
pub proof fn shutdown_order(a: bool, b: bool, c: bool, d: bool, e: bool)
    ensures
        next_phase_spec(Phase::Accept, a) == Phase::DropListener,
        next_phase_spec(Phase::DropListener, b) == Phase::JoinSerialLoops,
        next_phase_spec(Phase::JoinSerialLoops, c) == Phase::DisposeRegistry,
        next_phase_spec(Phase::DisposeRegistry, d) == Phase::JoinDisplay,
        next_phase_spec(Phase::JoinDisplay, e) == Phase::Done,
{
}

/// How the accept loop's last command went.
#[derive(Clone, Copy, Debug, PartialEq, Eq, Structural)]
pub enum AcceptEvent {
    /// The loop begins.
    Started,
    /// A client was accepted and its loops were started.
    Accepted,
    /// No client was waiting.
    WouldBlock,
    /// Accepting failed otherwise.
    AcceptFailed,
    /// The rest is over.
    Rested,
}

/// What the accept loop does next.
#[derive(Clone, Copy, Debug, PartialEq, Eq, Structural)]
pub enum AcceptCommand {
    /// Try to accept a client, without blocking.
    Accept,
    /// Rest for `ACCEPT_IDLE_MS`.
    Rest,
    /// Leave the loop.
    Exit,
}

/// One step of the accept loop, which is `done` once it has been left:
/// whether it is done afterwards, and what it does next. A failed accept is
/// passed over; only the stop signal ends the loop.
pub open spec fn accept_step(done: bool, event: AcceptEvent, stop: bool) -> (bool, AcceptCommand) {
    if done {
        (true, AcceptCommand::Exit)
    } else if event == AcceptEvent::WouldBlock {
        (false, AcceptCommand::Rest)
    } else if stop {
        (true, AcceptCommand::Exit)
    } else {
        (false, AcceptCommand::Accept)
    }
}

/// Whether `event` reports on `command`.
pub open spec fn accept_answers(command: AcceptCommand, event: AcceptEvent) -> bool {
    match command {
        AcceptCommand::Accept => event == AcceptEvent::Accepted || event == AcceptEvent::WouldBlock
            || event == AcceptEvent::AcceptFailed,
        AcceptCommand::Rest => event == AcceptEvent::Rested,
        AcceptCommand::Exit => false,
    }
}

impl AcceptCommand {
    /// The longest this command waits, in milliseconds.
    pub fn wait_ms(&self) -> (ms: u64)
        ensures
            ms == if *self == AcceptCommand::Rest {
                ACCEPT_IDLE_MS
            } else {
                0
            },
    {
        match self {
            AcceptCommand::Rest => ACCEPT_IDLE_MS,
            _ => 0,
        }
    }
}

/// The accept loop of the supervisor.
#[derive(Clone, Copy, Debug)]
pub struct Acceptor {
    done: bool,
}

impl Acceptor {
    /// Whether the loop has been left.
    pub closed spec fn spec_done(&self) -> bool {
        self.done
    }

    /// An accept loop at its start.
    pub fn new() -> (a: Self)
        ensures
            !a.done(),
    {
        Acceptor { done: false }
    }

    /// Whether the loop has been left.
    #[verifier::when_used_as_spec(spec_done)]
    pub fn done(&self) -> (d: bool)
        ensures
            d == self.spec_done(),
    {
        self.done
    }

    /// Takes the report on the last command and says what to do next.
    pub fn step(&mut self, event: AcceptEvent, stop: bool) -> (command: AcceptCommand)
        ensures
            (final(self).done(), command) == accept_step(old(self).done(), event, stop),
    {
        if self.done {
            AcceptCommand::Exit
        } else if event == AcceptEvent::WouldBlock {
            AcceptCommand::Rest
        } else if stop {
            self.done = true;
            AcceptCommand::Exit
        } else {
            AcceptCommand::Accept
        }
    }
}

/// Once the stop signal is set, the accept loop is left at the latest one
/// report after the next.
pub proof fn stop_ends_accept_loop(done: bool, first: AcceptEvent, second: AcceptEvent)
    requires
        accept_answers(accept_step(done, first, true).1, second),
    ensures
        accept_step(accept_step(done, first, true).0, second, true) == (true, AcceptCommand::Exit),
{
}

/// The last component of a path: what follows its last slash, or all of it.
pub open spec fn basename(path: Seq<char>) -> Seq<char>
    decreases path.len(),
{
    if path.len() == 0 {
        Seq::empty()
    } else if path.last() == '/' {
        Seq::empty()
    } else {
        basename(path.drop_last()).push(path.last())
    }
}

/// The name under which the gateway for a serial device is advertised.
pub open spec fn instance_name(serial_path: Seq<char>) -> Seq<char> {
    "sergw:"@ + basename(serial_path)
}

/// The name under which the gateway for the device at `serial_path` is
/// advertised: `sergw:` and the last component of the path.
pub fn mdns_instance_name(serial_path: &str) -> (name: String)
    ensures
        name@ == instance_name(serial_path@),
{
    let n = serial_path.unicode_len();
    let mut base = String::new();
    let mut i: usize = 0;
    assert(serial_path@.take(0) =~= Seq::<char>::empty());
    while i < n
        invariant
            i <= n,
            n == serial_path@.len(),
            base@ == basename(serial_path@.take(i as int)),
        decreases n - i,
    {
        let c = serial_path.get_char(i);
        proof {
            assert(serial_path@.take(i + 1).drop_last() =~= serial_path@.take(i as int));
            assert(serial_path@.take(i + 1).last() == c);
        }
        if c == '/' {
            base = String::new();
        } else {
            push_char(&mut base, c);
        }
        i += 1;
    }
    proof {
        assert(serial_path@.take(n as int) =~= serial_path@);
    }
    String::from_str("sergw:").concat(base.as_str())
}

/// The service type under which the gateway is advertised.
pub fn mdns_service_type() -> (s: String)
    ensures
        s@ == "_sergw._tcp"@,
{
    String::from_str("_sergw._tcp")
}

/// The text record that goes with the advertisement.
pub fn mdns_txt_record() -> (s: String)
    ensures
        s@ == "provider=sergw"@,
{
    String::from_str("provider=sergw")
}

} // verus!
