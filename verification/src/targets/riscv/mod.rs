//! The RISC-V CPU: a model that only owns its bus so far.

use crate::cpu::model::CpuModel;
use crate::peripherals::interconnect::{BusView, Interconnect};
use vstd::prelude::*;

verus! {

/// An error of the emulator itself: a message.
pub struct InternalError(pub String);

/// The RISC-V CPU.
pub struct Riscv {
    mmio: Interconnect,
}

impl Riscv {
    /// The state of the bus.
    pub closed spec fn bus(&self) -> BusView {
        self.mmio@
    }
}

impl CpuModel for Riscv {
    type Error = InternalError;

    open spec fn reset_on(&self, bus: BusView) -> bool {
        self.bus() == bus
    }

    fn new(mmio: Interconnect) -> (cpu: Riscv)
        ensures
            cpu.bus() == mmio@,
    {
        Riscv { mmio }
    }

    /// Executes nothing yet and succeeds.
    fn run(&mut self) -> (r: Result<(), InternalError>)
        ensures
            r is Ok,
            final(self).bus() == old(self).bus(),
    {
        Ok(())
    }
}

} // verus!
