//! An x86 emulator: instruction fetch, decode, execute and write-back
//! stages over a memory-mapped bus, with contracts proved by Verus.

pub mod bits;
pub mod compatible;
pub mod cpu;
pub mod debug;
pub mod display;
pub mod instructions;
pub mod numtext;
pub mod options;
pub mod peripherals;
pub mod register_file;
pub mod targets;

use crate::cpu::model::CpuModel;
use crate::display::VgaTextBuffer;
use crate::peripherals::interconnect::{BusView, Interconnect, MEMORY_SIZE};
use crate::peripherals::uart16550::Uart16550;
use crate::targets::x86_64::{reset_state, X86_64};
use vstd::prelude::*;

verus! {

/// The error that an emulation ends with when the CPU model stops on an
/// internal error or the program does not fit in memory.
#[derive(Debug)]
pub struct CpuError {}

/// A 64-bit machine with `program` loaded at address 0 of its RAM, the
/// rest of the RAM zero, the serial port `serial` and the screen `display`,
/// with its CPU reset; an error when the program does not fit in RAM.
pub fn boot_x86_64(program: &Vec<u8>, serial: Uart16550, display: VgaTextBuffer) -> (r: Result<
    X86_64,
    CpuError,
>)
    ensures
        program@.len() <= MEMORY_SIZE ==> (r matches Ok(cpu) && cpu@ == reset_state(
            BusView {
                memory: program@ + Seq::new((MEMORY_SIZE - program@.len()) as nat, |i: int| 0u8),
                serial: serial@,
                display: display@,
            },
        )),
        program@.len() > MEMORY_SIZE ==> r is Err,
{
    if program.len() > MEMORY_SIZE {
        return Err(CpuError {});
    }
    let mut interconnect = Interconnect::new(serial, display);
    interconnect.init_memory(program, 0);
    proof {
        let zeros = Seq::new(MEMORY_SIZE as nat, |i: int| 0u8);
        assert(zeros.subrange(0, 0) + program@ + zeros.subrange(program@.len() as int, MEMORY_SIZE as int)
            =~= program@ + Seq::new((MEMORY_SIZE - program@.len()) as nat, |i: int| 0u8));
    }
    Ok(X86_64::new(interconnect))
}

} // verus!
