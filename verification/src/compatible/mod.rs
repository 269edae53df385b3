//! The first real-mode x86 CPU, which knows `xor` and `hlt` only.

pub mod decoder;
pub mod executor;
pub mod fetcher;
pub mod gpr;
pub mod isa;
pub mod status_regs;

use crate::cpu::model::{CpuModel, Pipeline};
use crate::peripherals::interconnect::{bus_reader, BusView, Interconnect};
use crate::peripherals::memory_access::{read_bytes, MemoryAccess};
use crate::targets::x86_64::fetchable;
use self::decoder::{decode_compat_spec, ExecuteInst};
use self::executor::{execute_compat_spec, WriteBackType};
use self::fetcher::{compat_fits, fetch_compat_spec, undefined_text, FetchedInst};
use self::gpr::{Reg32, RegisterFile, REGISTER_NUM};
use self::status_regs::CpuState;
use vstd::prelude::*;

verus! {

/// An error of the emulator itself: a message.
#[derive(Debug)]
pub struct CompatibleException(pub String);

/// The state of the CPU and its bus, as values.
pub struct CompatView {
    pub ip: u64,
    /// The general purpose registers, by number.
    pub regs: Seq<u64>,
    pub bus: BusView,
    pub state: CpuState,
}

/// The first real-mode x86 CPU.
pub struct CompatibleMode {
    ip: u64,
    bus: Interconnect,
    rf: RegisterFile,
    state: CpuState,
}

impl View for CompatibleMode {
    type V = CompatView;

    closed spec fn view(&self) -> CompatView {
        CompatView { ip: self.ip, regs: self.rf@, bus: self.bus@, state: self.state }
    }
}

/// The message of a failed read of the instruction bytes.
pub open spec fn short_window_text() -> Seq<char> {
    "Invalid memory operation."@
}

/// The message of an instruction pointer that would pass the end of the
/// address space.
pub open spec fn ip_overflow_text() -> Seq<char> {
    "Instruction pointer overflow."@
}

/// The state after a write-back.
pub open spec fn write_back_compat_spec(s: CompatView, wb: WriteBackType) -> CompatView {
    match wb {
        WriteBackType::Gpr(w) => CompatView { regs: s.regs.update(w.index.num(), w.value), ..s },
        WriteBackType::Status(w) => CompatView { state: w.state, ..s },
    }
}

/// One instruction whose bytes start `program` (all of its bytes):
/// fetch it, move the instruction pointer past it, decode, execute and
/// write back.
pub open spec fn step_compat_spec(s: CompatView, program: Seq<u8>) -> (CompatView, Result<(), Seq<char>>) {
    if !compat_fits(program) {
        (s, Err(short_window_text()))
    } else {
        match fetch_compat_spec(program) {
            None => (s, Err(undefined_text())),
            Some(inst) => if s.ip + inst.inst_bytes > u64::MAX {
                (s, Err(ip_overflow_text()))
            } else {
                let s1 = CompatView { ip: (s.ip + inst.inst_bytes) as u64, ..s };
                match decode_compat_spec(inst, s.regs) {
                    Err(msg) => (s1, Err(msg)),
                    Ok(d) => (write_back_compat_spec(s1, execute_compat_spec(d)), Ok(())),
                }
            },
        }
    }
}

/// A run of at most `fuel` instructions while the CPU runs, until the
/// first error.
pub open spec fn run_compat_spec(s: CompatView, fuel: nat) -> (CompatView, Result<(), Seq<char>>)
    decreases fuel,
{
    if fuel == 0 || s.state != CpuState::Running {
        (s, Ok(()))
    } else if !fetchable(s.bus, s.ip) {
        (s, Err(short_window_text()))
    } else {
        let (s2, r) = step_compat_spec(s, read_bytes(bus_reader(s.bus), s.ip as usize, 15));
        if r is Err {
            (s2, r)
        } else {
            run_compat_spec(s2, (fuel - 1) as nat)
        }
    }
}

/// An outcome of the spec functions matches a result of the CPU.
pub open spec fn compat_outcome(r: Result<(), CompatibleException>, o: Result<(), Seq<char>>) -> bool {
    match o {
        Ok(_) => r is Ok,
        Err(msg) => r matches Err(e) && e.0@ == msg,
    }
}

impl CompatibleMode {
    /// The CPU as the BIOS leaves it on the bus `peripheral_bus`: `ax`
    /// holds the boot signature 0xaa55, the stack pointer 0x6f2c, the other
    /// registers all ones, and execution starts at 0x7c00.
    pub fn boot_bios(peripheral_bus: Interconnect) -> (cpu: CompatibleMode)
        ensures
            cpu@ == (CompatView {
                ip: 0x7c00,
                regs: Seq::new(REGISTER_NUM as nat, |i: int| 0xffff_ffff_ffff_ffffu64).update(
                    Reg32::Eax.num(),
                    0xaa55,
                ).update(Reg32::Esp.num(), 0x6f2c),
                bus: peripheral_bus@,
                state: CpuState::Running,
            }),
    {
        let mut rf = RegisterFile::new();
        rf.write_u64(Reg32::Eax.index(), 0xaa55u64);
        rf.write_u64(Reg32::Esp.index(), 0x6f2cu64);
        CompatibleMode { ip: 0x7c00u64, bus: peripheral_bus, rf, state: CpuState::Running }
    }

    /// The value of register number `index`.
    pub fn read_register(&self, index: usize) -> (v: u64)
        requires
            index < REGISTER_NUM,
        ensures
            v == self@.regs[index as int],
    {
        self.rf.read_u64(index)
    }

    /// The instruction pointer.
    pub fn get_ip(&self) -> (ip: u64)
        ensures
            ip == self@.ip,
    {
        self.ip
    }

    /// Whether the CPU runs.
    pub fn state(&self) -> (st: CpuState)
        ensures
            st == self@.state,
    {
        self.state
    }
}

impl Pipeline for CompatibleMode {
    type Error = CompatibleException;
    type Fetched = FetchedInst;
    type Decoded = ExecuteInst;
    type Executed = WriteBackType;

    open spec fn fetched(&self, program: Seq<u8>, r: Result<FetchedInst, CompatibleException>) -> bool {
        &&& !compat_fits(program) ==> (r matches Err(e) && e.0@ == short_window_text())
        &&& compat_fits(program) ==> match fetch_compat_spec(program) {
            Some(inst) => r == Ok::<FetchedInst, CompatibleException>(inst),
            None => r matches Err(e) && e.0@ == undefined_text(),
        }
    }

    open spec fn decoded(&self, inst: FetchedInst, r: Result<ExecuteInst, CompatibleException>) -> bool {
        match decode_compat_spec(inst, self@.regs) {
            Ok(d) => r == Ok::<ExecuteInst, CompatibleException>(d),
            Err(msg) => r matches Err(e) && e.0@ == msg,
        }
    }

    open spec fn executed(&self, inst: ExecuteInst, r: Result<WriteBackType, CompatibleException>) -> bool {
        r == Ok::<WriteBackType, CompatibleException>(execute_compat_spec(inst))
    }

    open spec fn written_back(&self, inst: WriteBackType, after: CompatibleMode, r: Result<(), CompatibleException>) -> bool {
        &&& r is Ok
        &&& after@ == write_back_compat_spec(self@, inst)
    }

    /// Runs the instruction whose bytes start `program`.
    fn execute_an_instruction(&mut self, program: &[u8]) -> (r: Result<(), CompatibleException>)
        ensures
            final(self)@ == step_compat_spec(old(self)@, program@).0,
            compat_outcome(r, step_compat_spec(old(self)@, program@).1),
    {
        let fetched_inst = match self.fetch(program) {
            Ok(inst) => inst,
            Err(e) => {
                return Err(e);
            },
        };
        self.ip = match self.ip.checked_add(fetched_inst.inst_bytes) {
            Some(ip) => ip,
            None => {
                return Err(CompatibleException("Instruction pointer overflow.".to_owned()));
            },
        };
        let decoded_inst = match decoder::decode(&fetched_inst, &self.rf) {
            Ok(d) => d,
            Err(e) => {
                return Err(e);
            },
        };
        let write_back_packet = match executor::execute(&decoded_inst) {
            Ok(w) => w,
            Err(e) => {
                return Err(e);
            },
        };
        self.write_back(&write_back_packet)
    }

    /// Fetches the instruction whose bytes start `program`; bytes that do
    /// not hold the whole instruction are an invalid memory operation.
    fn fetch(&self, program: &[u8]) -> (r: Result<FetchedInst, CompatibleException>)
        ensures
            !compat_fits(program@) ==> (r matches Err(e) && e.0@ == short_window_text()),
            compat_fits(program@) ==> match fetch_compat_spec(program@) {
                Some(inst) => r == Ok::<FetchedInst, CompatibleException>(inst),
                None => r matches Err(e) && e.0@ == undefined_text(),
            },
    {
        if !fetcher::fits(program) {
            return Err(CompatibleException("Invalid memory operation.".to_owned()));
        }
        fetcher::fetch(program)
    }

    /// Decodes with the current registers.
    fn decode(&self, inst: &FetchedInst) -> (r: Result<ExecuteInst, CompatibleException>)
        ensures
            match decode_compat_spec(*inst, self@.regs) {
                Ok(d) => r == Ok::<ExecuteInst, CompatibleException>(d),
                Err(msg) => r matches Err(e) && e.0@ == msg,
            },
    {
        decoder::decode(inst, &self.rf)
    }

    /// Executes a decoded instruction; this never fails.
    fn execute(&self, inst: &ExecuteInst) -> (r: Result<WriteBackType, CompatibleException>)
        ensures
            r == Ok::<WriteBackType, CompatibleException>(execute_compat_spec(*inst)),
    {
        executor::execute(inst)
    }

    /// Applies a write-back; this never fails.
    fn write_back(&mut self, inst: &WriteBackType) -> (r: Result<(), CompatibleException>)
        ensures
            r is Ok,
            final(self)@ == write_back_compat_spec(old(self)@, *inst),
    {
        match *inst {
            WriteBackType::Gpr(w) => {
                self.rf.write_u64(w.index.index(), w.value);
            },
            WriteBackType::Status(w) => {
                self.state = w.state;
            },
        }
        Ok(())
    }
}

impl CpuModel for CompatibleMode {
    type Error = CompatibleException;

    open spec fn reset_on(&self, bus: BusView) -> bool {
        self@ == (CompatView {
            ip: 0,
            regs: Seq::new(REGISTER_NUM as nat, |i: int| 0xffff_ffff_ffff_ffffu64),
            bus,
            state: CpuState::Running,
        })
    }

    fn new(peripheral_bus: Interconnect) -> (cpu: CompatibleMode)
        ensures
            cpu@ == (CompatView {
                ip: 0,
                regs: Seq::new(REGISTER_NUM as nat, |i: int| 0xffff_ffff_ffff_ffffu64),
                bus: peripheral_bus@,
                state: CpuState::Running,
            }),
    {
        CompatibleMode { ip: 0, bus: peripheral_bus, rf: RegisterFile::new(), state: CpuState::Running }
    }

    /// Runs while the CPU is running, at most `u64::MAX` instructions,
    /// until the first error.
    fn run(&mut self) -> (r: Result<(), CompatibleException>)
        ensures
            final(self)@ == run_compat_spec(old(self)@, u64::MAX as nat).0,
            compat_outcome(r, run_compat_spec(old(self)@, u64::MAX as nat).1),
    {
        let mut fuel: u64 = u64::MAX;
        while self.state == CpuState::Running && fuel > 0
            invariant
                run_compat_spec(self@, fuel as nat) == run_compat_spec(old(self)@, u64::MAX as nat),
            decreases fuel,
        {
            let ghost s = self@;
            proof {
                assert(bus_reader(s.bus) =~= (|a: usize| <Interconnect as MemoryAccess>::read_spec(
                    self.bus@,
                    a,
                )));
            }
            let inst_candidate = match self.bus.fetch_inst_candidate(self.ip) {
                Ok(c) => c,
                Err(_) => {
                    return Err(CompatibleException("Invalid memory operation.".to_owned()));
                },
            };
            match self.execute_an_instruction(inst_candidate.as_slice()) {
                Ok(()) => {},
                Err(e) => {
                    return Err(e);
                },
            }
            fuel = fuel - 1;
        }
        Ok(())
    }
}

/// The first real-mode CPU clears `eax` with `xor` (two bytes, whatever its
/// ModR/M byte) and halts with `hlt` (one byte); each moves the instruction
/// pointer past itself and changes nothing else.
pub proof fn lemma_xor_clears_hlt_halts(s: CompatView, program: Seq<u8>)
    requires
        s.regs.len() == REGISTER_NUM,
        program.len() >= 2,
        s.ip + 2 <= u64::MAX,
    ensures
        program[0] == 0x31 ==> step_compat_spec(s, program) == (
            CompatView { ip: (s.ip + 2) as u64, regs: s.regs.update(0, 0), ..s },
            Ok::<(), Seq<char>>(()),
        ),
        program[0] == 0xf4 ==> step_compat_spec(s, program) == (
            CompatView { ip: (s.ip + 1) as u64, state: CpuState::Halted, ..s },
            Ok::<(), Seq<char>>(()),
        ),
{
    assert(0u64 ^ 0u64 == 0) by (bit_vector);
}

} // verus!
