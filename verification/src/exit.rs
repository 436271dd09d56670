//! The exit code of a failed run.

use vstd::prelude::*;

verus! {

/// The kinds of I/O failure that the exit code tells apart.
#[derive(Clone, Copy, Debug, PartialEq, Eq, Structural)]
pub enum IoKind {
    AddrInUse,
    AddrNotAvailable,
    PermissionDenied,
    ConnectionAborted,
    ConnectionReset,
    /// Any other kind.
    Other,
}

/// One link in the chain of causes of a failure, outermost first.
#[derive(Clone, Copy, Debug, PartialEq, Eq, Structural)]
pub enum Cause {
    /// No serial port to choose from.
    NoPorts,
    /// Several serial ports to choose from.
    MultiplePorts,
    /// An I/O failure of the given kind.
    Io(IoKind),
    /// The serial device could not be opened or configured.
    Serial,
    /// Anything else, such as a note on what was being attempted.
    Other,
}

/// The code for a run that succeeded.
pub const EXIT_OK: i32 = 0;

/// The code for a failure that is none of the others.
pub const EXIT_GENERIC: i32 = 1;

/// The code for "no serial ports".
pub const EXIT_NO_PORTS: i32 = 2;

/// The code for "several serial ports".
pub const EXIT_MULTIPLE_PORTS: i32 = 3;

/// The code for a failure to bind or another network failure.
pub const EXIT_NETWORK: i32 = 4;

/// The code for a failure to open the serial device.
pub const EXIT_SERIAL: i32 = 5;

/// The code that a cause settles, if it settles one.
pub open spec fn cause_code(cause: Cause) -> Option<i32> {
    match cause {
        Cause::NoPorts => Some(EXIT_NO_PORTS),
        Cause::MultiplePorts => Some(EXIT_MULTIPLE_PORTS),
        Cause::Io(kind) => if kind == IoKind::Other {
            Some(EXIT_GENERIC)
        } else {
            Some(EXIT_NETWORK)
        },
        Cause::Serial => Some(EXIT_SERIAL),
        Cause::Other => None,
    }
}

/// The code for a chain of causes: that of the first cause that settles one,
/// and the generic code if none does.
pub open spec fn chain_code(chain: Seq<Cause>) -> i32
    decreases chain.len(),
{
    if chain.len() == 0 {
        EXIT_GENERIC
    } else {
        match cause_code(chain.first()) {
            Some(code) => code,
            None => chain_code(chain.drop_first()),
        }
    }
}

/// The exit code for a failure with the given chain of causes, outermost
/// first.
pub fn exit_code_for_error(chain: &Vec<Cause>) -> (code: i32)
    ensures
        code == chain_code(chain@),
        1 <= code <= 5,
{
    let mut i: usize = 0;
    assert(chain@.skip(0) =~= chain@);
    while i < chain.len()
        invariant
            i <= chain@.len(),
            chain_code(chain@) == chain_code(chain@.skip(i as int)),
        decreases chain@.len() - i,
    {
        proof {
            assert(chain@.skip(i as int).first() == chain@[i as int]);
            assert(chain@.skip(i as int).drop_first() =~= chain@.skip(i + 1));
        }
        match chain[i] {
            Cause::NoPorts => {
                return EXIT_NO_PORTS;
            },
            Cause::MultiplePorts => {
                return EXIT_MULTIPLE_PORTS;
            },
            Cause::Io(kind) => {
                return match kind {
                    IoKind::Other => EXIT_GENERIC,
                    _ => EXIT_NETWORK,
                };
            },
            Cause::Serial => {
                return EXIT_SERIAL;
            },
            Cause::Other => {},
        }
        i += 1;
    }
    proof {
        assert(chain@.skip(chain@.len() as int) =~= Seq::<Cause>::empty());
    }
    EXIT_GENERIC
}

} // verus!
