//! What the gateway is asked to do: the settings of a run.

use vstd::prelude::*;
use crate::addr::PeerAddr;
use crate::link::WAIT_MS;

verus! {

/// The baud rate when none is given.
pub const DEFAULT_BAUD: u32 = 115_200;

/// The capacity of each queue, in buffers, when none is given.
pub const DEFAULT_BUFFER: usize = 4096;

/// The port of the listen address when none is given.
pub const DEFAULT_PORT: u16 = 5656;

/// Bits per character.
#[derive(Clone, Copy, Debug, PartialEq, Eq, Structural)]
pub enum DataBitsOpt {
    Five,
    Six,
    Seven,
    Eight,
}

/// The parity bit.
#[derive(Clone, Copy, Debug, PartialEq, Eq, Structural)]
pub enum ParityOpt {
    NoParity,
    Odd,
    Even,
}

/// Stop bits per character.
#[derive(Clone, Copy, Debug, PartialEq, Eq, Structural)]
pub enum StopBitsOpt {
    One,
    Two,
}

/// How the list of ports is printed.
#[derive(Clone, Copy, Debug, PartialEq, Eq, Structural)]
pub enum PortsFormat {
    Text,
    Json,
}

impl DataBitsOpt {
    /// The number of bits per character.
    pub open spec fn spec_bits(self) -> u8 {
        match self {
            DataBitsOpt::Five => 5,
            DataBitsOpt::Six => 6,
            DataBitsOpt::Seven => 7,
            DataBitsOpt::Eight => 8,
        }
    }

    /// The number of bits per character.
    #[verifier::when_used_as_spec(spec_bits)]
    pub fn bits(self) -> (n: u8)
        ensures
            n == self.spec_bits(),
    {
        match self {
            DataBitsOpt::Five => 5,
            DataBitsOpt::Six => 6,
            DataBitsOpt::Seven => 7,
            DataBitsOpt::Eight => 8,
        }
    }
}

impl StopBitsOpt {
    /// The number of stop bits.
    pub open spec fn spec_count(self) -> u8 {
        match self {
            StopBitsOpt::One => 1,
            StopBitsOpt::Two => 2,
        }
    }

    /// The number of stop bits.
    #[verifier::when_used_as_spec(spec_count)]
    pub fn count(self) -> (n: u8)
        ensures
            n == self.spec_count(),
    {
        match self {
            StopBitsOpt::One => 1,
            StopBitsOpt::Two => 2,
        }
    }
}

/// The settings of a gateway run.
#[derive(Debug)]
pub struct Listen {
    /// The serial port to open; chosen automatically if absent.
    pub serial: Option<String>,
    /// The baud rate.
    pub baud: u32,
    /// The TCP listen address.
    pub host: PeerAddr,
    /// Bits per character.
    pub data_bits: DataBitsOpt,
    /// The parity bit.
    pub parity: ParityOpt,
    /// Stop bits per character.
    pub stop_bits: StopBitsOpt,
    /// The capacity of each queue, in buffers.
    pub buffer: usize,
}

impl Listen {
    /// The settings when nothing is given: no serial port named, 115200 baud,
    /// 127.0.0.1:5656, eight data bits, no parity, one stop bit, queues of
    /// 4096 buffers.
    pub fn new() -> (l: Self)
        ensures
            l.serial is None,
            l.baud == DEFAULT_BAUD,
            l.host == (PeerAddr::V4 { octets: 0x7f00_0001, port: DEFAULT_PORT }),
            l.data_bits == DataBitsOpt::Eight,
            l.parity == ParityOpt::NoParity,
            l.stop_bits == StopBitsOpt::One,
            l.buffer == DEFAULT_BUFFER,
    {
        Listen {
            serial: None,
            baud: DEFAULT_BAUD,
            host: PeerAddr::v4(127, 0, 0, 1, DEFAULT_PORT),
            data_bits: DataBitsOpt::Eight,
            parity: ParityOpt::NoParity,
            stop_bits: StopBitsOpt::One,
            buffer: DEFAULT_BUFFER,
        }
    }
}

/// How the serial device is to be opened.
#[derive(Clone, Copy, Debug, PartialEq, Eq, Structural)]
pub struct SerialSettings {
    /// The baud rate.
    pub baud: u32,
    /// Bits per character.
    pub data_bits: DataBitsOpt,
    /// The parity bit.
    pub parity: ParityOpt,
    /// Stop bits per character.
    pub stop_bits: StopBitsOpt,
    /// How long a read may wait, in milliseconds.
    pub timeout_ms: u64,
}

/// The way to open the serial device for these settings: their baud rate,
/// data bits, parity and stop bits, with reads that wait at most `WAIT_MS`.
pub fn configure_serial(listen: &Listen) -> (settings: SerialSettings)
    ensures
        settings == (SerialSettings {
            baud: listen.baud,
            data_bits: listen.data_bits,
            parity: listen.parity,
            stop_bits: listen.stop_bits,
            timeout_ms: WAIT_MS,
        }),
{
    SerialSettings {
        baud: listen.baud,
        data_bits: listen.data_bits,
        parity: listen.parity,
        stop_bits: listen.stop_bits,
        timeout_ms: WAIT_MS,
    }
}

} // verus!
