//! The serial port: a transmitter that collects the bytes written to it.

use crate::peripherals::memory_access::{MemoryAccess, MemoryAccessError, Result};
use vstd::prelude::*;

verus! {

/// Where the bytes sent through the serial port end up.
pub enum Target {
    /// The standard output of the emulator.
    Stdout,
    /// A file at the given path.
    File(String),
    /// Kept in memory only.
    Buffer,
}

/// A 16550 UART. Only transmission is modelled: every byte written to it is
/// appended to the transmit log, which the host drains to its target.
pub struct Uart16550 {
    target: Target,
    tx: Vec<u8>,
}

impl View for Uart16550 {
    type V = Seq<u8>;

    /// The bytes transmitted and not yet drained.
    closed spec fn view(&self) -> Seq<u8> {
        self.tx@
    }
}

impl MemoryAccess for Uart16550 {
    /// Reception is not modelled: every read fails.
    open spec fn read_spec(state: Seq<u8>, addr: usize) -> Option<u8> {
        None
    }

    /// Every write transmits its byte, whatever the register address.
    open spec fn write_spec(state: Seq<u8>, addr: usize, data: u8) -> Option<Seq<u8>> {
        Some(state.push(data))
    }

    fn read_u8(&self, _addr: usize) -> (r: Result<u8>) {
        Err(MemoryAccessError)
    }

    fn write_u8(&mut self, _addr: usize, data: u8) -> (r: Result<()>) {
        self.tx.push(data);
        Ok(())
    }
}

impl Uart16550 {
    /// Where the transmitted bytes are meant to go.
    pub closed spec fn target_spec(&self) -> Target {
        self.target
    }

    /// Where the transmitted bytes are meant to go.
    pub fn target(&self) -> (t: &Target)
        ensures
            *t == self.target_spec(),
    {
        &self.target
    }

    /// Hands out the bytes transmitted so far and empties the log.
    pub fn take_output(&mut self) -> (out: Vec<u8>)
        ensures
            out@ == old(self)@,
            final(self)@ == Seq::<u8>::empty(),
    {
        let mut empty: Vec<u8> = Vec::new();
        std::mem::swap(&mut empty, &mut self.tx);
        empty
    }
}

/// A UART that sends to `target`, with nothing transmitted yet.
pub fn uart_factory(target: Target) -> (u: Uart16550)
    ensures
        u@ == Seq::<u8>::empty(),
        u.target_spec() == target,
{
    Uart16550 { target, tx: Vec::new() }
}

} // verus!
