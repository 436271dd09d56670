//! Byte tallies, one per direction.

use vstd::prelude::*;

verus! {

/// A tally after `n` more bytes: the sum, wrapping at 64 bits.
pub open spec fn tally_after(before: u64, n: usize) -> u64 {
    ((before + n) % 0x1_0000_0000_0000_0000) as u64
}

/// How many bytes crossed the gateway: `bytes_in` from TCP clients towards the
/// serial device, `bytes_out` from the serial device towards TCP clients.
#[derive(Clone, Copy, Debug)]
pub struct Counters {
    bytes_in: u64,
    bytes_out: u64,
}

impl Counters {
    /// The bytes received from TCP clients so far.
    pub closed spec fn spec_bytes_in(&self) -> u64 {
        self.bytes_in
    }

    /// The bytes read from the serial device so far.
    pub closed spec fn spec_bytes_out(&self) -> u64 {
        self.bytes_out
    }

    /// Both tallies at zero.
    pub fn new() -> (c: Self)
        ensures
            c.spec_bytes_in() == 0,
            c.spec_bytes_out() == 0,
    {
        Counters { bytes_in: 0, bytes_out: 0 }
    }

    /// The bytes received from TCP clients so far.
    #[verifier::when_used_as_spec(spec_bytes_in)]
    pub fn bytes_in(&self) -> (n: u64)
        ensures
            n == self.spec_bytes_in(),
    {
        self.bytes_in
    }

    /// The bytes read from the serial device so far.
    #[verifier::when_used_as_spec(spec_bytes_out)]
    pub fn bytes_out(&self) -> (n: u64)
        ensures
            n == self.spec_bytes_out(),
    {
        self.bytes_out
    }

    /// Counts `n` bytes received from a TCP client.
    pub fn add_in(&mut self, n: usize)
        ensures
            final(self).bytes_in() == tally_after(old(self).bytes_in(), n),
            final(self).bytes_out() == old(self).bytes_out(),
    {
        self.bytes_in = self.bytes_in.wrapping_add(n as u64);
    }

    /// Counts `n` bytes read from the serial device.
    pub fn add_out(&mut self, n: usize)
        ensures
            final(self).bytes_out() == tally_after(old(self).bytes_out(), n),
            final(self).bytes_in() == old(self).bytes_in(),
    {
        self.bytes_out = self.bytes_out.wrapping_add(n as u64);
    }
}

impl Default for Counters {
    fn default() -> (c: Self)
        ensures
            c.bytes_in() == 0,
            c.bytes_out() == 0,
    {
        Counters::new()
    }
}

/// As long as a tally stays below two to the sixty-fourth, counting more bytes
/// adds exactly that many and so never lowers it.
pub proof fn tally_never_decreases(before: u64, n: usize)
    requires
        before + n <= u64::MAX,
    ensures
        tally_after(before, n) == before + n,
        tally_after(before, n) >= before,
{
}

} // verus!
