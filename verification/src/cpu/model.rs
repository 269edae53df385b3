//! The interfaces that every CPU model offers.

use crate::peripherals::interconnect::{BusView, Interconnect};
use vstd::prelude::*;

verus! {

/// Makes a CPU of model `T` on the bus `mmio`: the CPU in its reset state
/// on that bus.
pub fn cpu_factory<T>(mmio: Interconnect) -> (cpu: T) where T: CpuModel + Pipeline
    ensures
        cpu.reset_on(mmio@),
{
    T::new(mmio)
}

/// A CPU model: made on a bus, then run.
pub trait CpuModel: Sized {
    type Error;

    /// The CPU is in the reset state of its model on a bus in state `bus`.
    spec fn reset_on(&self, bus: BusView) -> bool;

    /// A CPU in its reset state on the bus `mmio`.
    fn new(mmio: Interconnect) -> (cpu: Self)
        ensures
            cpu.reset_on(mmio@),
    ;

    /// Runs the program on the bus until the CPU stops.
    fn run(&mut self) -> Result<(), Self::Error>;
}

/// An instruction pipeline of four stages. Each model says what each stage
/// yields; running one instruction chains the stages and stops at the first
/// that fails.
pub trait Pipeline: Sized {
    type Error;
    type Fetched;
    type Decoded;
    type Executed;

    /// `r` is what the fetch stage yields for the bytes `program`.
    spec fn fetched(&self, program: Seq<u8>, r: Result<Self::Fetched, Self::Error>) -> bool;

    /// `r` is what the decode stage yields for `inst`.
    spec fn decoded(&self, inst: Self::Fetched, r: Result<Self::Decoded, Self::Error>) -> bool;

    /// `r` is what the execute stage yields for `inst`.
    spec fn executed(&self, inst: Self::Decoded, r: Result<Self::Executed, Self::Error>) -> bool;

    /// Writing back `inst` leaves the CPU as `after`, with outcome `r`.
    spec fn written_back(&self, inst: Self::Executed, after: Self, r: Result<(), Self::Error>) -> bool;

    /// Runs one instruction, whose bytes start `program`, through all stages:
    /// the first stage that fails gives the error and leaves the CPU as it
    /// was; otherwise the write-back of what the stages yielded.
    fn execute_an_instruction(&mut self, program: &[u8]) -> (r: Result<(), Self::Error>)
        default_ensures
            (exists|e: Self::Error|
                #![trigger old(self).fetched(program@, Err::<Self::Fetched, Self::Error>(e))]
                old(self).fetched(program@, Err::<Self::Fetched, Self::Error>(e)) && r == Err::<(), Self::Error>(e)
                    && *final(self) == *old(self))
            || (exists|f: Self::Fetched, e: Self::Error|
                #![trigger old(self).fetched(program@, Ok::<Self::Fetched, Self::Error>(f)), old(self).decoded(f, Err::<Self::Decoded, Self::Error>(e))]
                old(self).fetched(program@, Ok::<Self::Fetched, Self::Error>(f)) && old(self).decoded(
                    f,
                    Err::<Self::Decoded, Self::Error>(e),
                ) && r == Err::<(), Self::Error>(e) && *final(self) == *old(self))
            || (exists|f: Self::Fetched, d: Self::Decoded, e: Self::Error|
                #![trigger old(self).fetched(program@, Ok::<Self::Fetched, Self::Error>(f)), old(self).decoded(f, Ok::<Self::Decoded, Self::Error>(d)), old(self).executed(d, Err::<Self::Executed, Self::Error>(e))]
                old(self).fetched(program@, Ok::<Self::Fetched, Self::Error>(f)) && old(self).decoded(
                    f,
                    Ok::<Self::Decoded, Self::Error>(d),
                ) && old(self).executed(d, Err::<Self::Executed, Self::Error>(e)) && r == Err::<
                    (),
                    Self::Error,
                >(e) && *final(self) == *old(self))
            || (exists|f: Self::Fetched, d: Self::Decoded, x: Self::Executed|
                #![trigger old(self).fetched(program@, Ok::<Self::Fetched, Self::Error>(f)), old(self).decoded(f, Ok::<Self::Decoded, Self::Error>(d)), old(self).executed(d, Ok::<Self::Executed, Self::Error>(x))]
                old(self).fetched(program@, Ok::<Self::Fetched, Self::Error>(f)) && old(self).decoded(
                    f,
                    Ok::<Self::Decoded, Self::Error>(d),
                ) && old(self).executed(d, Ok::<Self::Executed, Self::Error>(x)) && old(
                    self,
                ).written_back(x, *final(self), r)),
    {
        let fetched = match self.fetch(program) {
            Ok(f) => f,
            Err(e) => {
                return Err(e);
            },
        };
        let decoded = match self.decode(&fetched) {
            Ok(d) => d,
            Err(e) => {
                return Err(e);
            },
        };
        let executed = match self.execute(&decoded) {
            Ok(x) => x,
            Err(e) => {
                return Err(e);
            },
        };
        self.write_back(&executed)
    }

    /// Fetches the instruction whose bytes start `program`.
    fn fetch(&self, program: &[u8]) -> (r: Result<Self::Fetched, Self::Error>)
        ensures
            self.fetched(program@, r),
    ;

    /// Decodes a fetched instruction.
    fn decode(&self, inst: &Self::Fetched) -> (r: Result<Self::Decoded, Self::Error>)
        ensures
            self.decoded(*inst, r),
    ;

    /// Executes a decoded instruction.
    fn execute(&self, inst: &Self::Decoded) -> (r: Result<Self::Executed, Self::Error>)
        ensures
            self.executed(*inst, r),
    ;

    /// Writes back the result of execution; the only stage that changes the
    /// CPU.
    fn write_back(&mut self, inst: &Self::Executed) -> (r: Result<(), Self::Error>)
        ensures
            old(self).written_back(*inst, *final(self), r),
    ;
}

} // verus!
