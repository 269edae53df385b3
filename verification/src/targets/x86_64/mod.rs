//! The 64-bit CPU: a pipeline of fetch, decode, execute and write-back
//! over the bus, one instruction per cycle.

pub mod decoder;
pub mod ex_stage;
pub mod isa;

use crate::bits::{le_bytes, lemma_le_bytes_order};
use crate::cpu::decoder::{wadd, wsub, ExecuteInstType};
use self::decoder::{
    decodable, decode, decode_spec, effective_address, is_decodable, lemma_fetched_decodable, store_size,
};
use crate::cpu::exceptions::InternalException;
use crate::cpu::fetcher::{fetch_inst, fetch_spec, FetchUnit, FetchedInst, FETCH_WINDOW};
use crate::cpu::isa::modrm::ModRmModeField;
use crate::cpu::isa::opcode::Opcode;
use crate::cpu::isa::registers::{lemma_reg64_numbers, Reg64Id};
use crate::cpu::model::{CpuModel, Pipeline};
use crate::cpu::register_file::{hex8_text, registers_text, RegisterFile};
use crate::numtext::{digits_text, push_digits, push_padded_digits};
use crate::peripherals::interconnect::{
    bus_read_u64, bus_reader, bus_write_u64, bus_writer, lemma_bus_bytes_to_ram, lemma_bus_read_after_write, pow256,
    lemma_bus_write_u64_keeps_ram_size, lemma_bus_writes_keep_ram_size, BusView, Interconnect,
    MAX_INSTRUCTION_LENGTH, MEMORY_SIZE,
};
use crate::peripherals::memory::lemma_write_bytes_to_ram;
use crate::peripherals::memory_access::{read_bytes, readable, write_bytes, MemoryAccess};
use self::ex_stage::{execute, execute_spec, executable, is_executable, sized_data, WriteBack, WriteBackData};
use vstd::prelude::*;

verus! {

/// Whether the CPU executes instructions.
#[derive(Debug, Clone, Copy, PartialEq, Eq, Structural)]
pub enum CpuState {
    Running,
    Halt,
}

/// The state of the 64-bit CPU and its bus, as values.
pub struct X86_64View {
    /// The eight general purpose registers, by number.
    pub regs: Seq<u64>,
    /// The address of the next instruction.
    pub rip: u64,
    /// The number of instructions completed.
    pub executed_insts: u64,
    pub bus: BusView,
    pub state: CpuState,
}

/// The status dump of a CPU in state `v`: the number of instructions
/// completed in decimal, then the instruction pointer and each register in
/// upper-case hexadecimal, padded to eight digits.
pub open spec fn status_text(v: X86_64View) -> Seq<char> {
    "=== CPU status ("@ + digits_text(v.executed_insts as nat, 10) + " instructions executed.)===\nRIP: 0x"@
        + hex8_text(v.rip) + "\nRegisters:\n"@ + registers_text(v.regs, 8)
}

/// The 64-bit CPU.
pub struct X86_64 {
    rf: RegisterFile,
    fetch_unit: FetchUnit,
    executed_insts: u64,
    mmio: Interconnect,
    state: CpuState,
}

impl View for X86_64 {
    type V = X86_64View;

    closed spec fn view(&self) -> X86_64View {
        X86_64View {
            regs: self.rf@,
            rip: self.fetch_unit.rip(),
            executed_insts: self.executed_insts,
            bus: self.mmio@,
            state: self.state,
        }
    }
}

/// The bus after storing `data` at `addr`, and whether the store succeeded:
/// the bytes go out one by one in little-endian order, except that a
/// quadword store is one bus access; an address whose eight bytes do not
/// all fit below `usize::MAX` fails.
pub open spec fn bus_store(bus: BusView, addr: u64, data: WriteBackData) -> (BusView, bool) {
    if addr + 7 > usize::MAX {
        (bus, false)
    } else {
        let a = addr as usize;
        match data {
            WriteBackData::Byte(b) => match bus_writer()(bus, a, b) {
                Some(m) => (m, true),
                None => (bus, false),
            },
            WriteBackData::Word(w) => write_bytes(bus_writer(), bus, a, le_bytes(w as u64, 2)),
            WriteBackData::DWord(d) => write_bytes(bus_writer(), bus, a, le_bytes(d as u64, 4)),
            WriteBackData::QWord(q) => bus_write_u64(bus, a, q),
        }
    }
}

/// The state after one write-back, and its outcome: a register or the
/// instruction pointer or the run state is set; a store goes to the bus; a
/// load sets a register from the quadword on the bus; a return sets the
/// instruction pointer from the quadword on the bus. A failed bus access is
/// a bus error at its address, a write-back to no register an invalid
/// micro-operation.
pub open spec fn apply_wb(s: X86_64View, wb: WriteBack) -> (X86_64View, Result<(), InternalException>) {
    match wb {
        WriteBack::Rip(next) => (X86_64View { rip: next, ..s }, Ok(())),
        WriteBack::GeneralRegister(dest, value) => if dest == Reg64Id::Unknown {
            (s, Err(InternalException::InvalidMicroOp))
        } else {
            (X86_64View { regs: s.regs.update(dest.num(), value), ..s }, Ok(()))
        },
        WriteBack::CpuState(next) => (X86_64View { state: next, ..s }, Ok(())),
        WriteBack::Store(addr, data) => {
            let (bus, ok) = bus_store(s.bus, addr, data);
            (
                X86_64View { bus, ..s },
                if ok {
                    Ok(())
                } else {
                    Err(InternalException::BusError { addr })
                },
            )
        },
        WriteBack::Load(dest, addr) => if dest == Reg64Id::Unknown {
            (s, Err(InternalException::InvalidMicroOp))
        } else {
            match bus_read_u64(s.bus, addr) {
                Some(v) => (X86_64View { regs: s.regs.update(dest.num(), v), ..s }, Ok(())),
                None => (s, Err(InternalException::BusError { addr })),
            }
        },
        WriteBack::Return(addr) => match bus_read_u64(s.bus, addr) {
            Some(v) => (X86_64View { rip: v, ..s }, Ok(())),
            None => (s, Err(InternalException::BusError { addr })),
        },
    }
}

/// The write-backs applied in order, stopping at the first that fails.
pub open spec fn apply_wbs(s: X86_64View, wbs: Seq<WriteBack>) -> (
    X86_64View,
    Result<(), InternalException>,
)
    decreases wbs.len(),
{
    if wbs.len() == 0 {
        (s, Ok(()))
    } else {
        let (s1, r) = apply_wb(s, wbs[0]);
        if r is Err {
            (s1, r)
        } else {
            apply_wbs(s1, wbs.drop_first())
        }
    }
}

/// What the execute stage makes of a sequence of micro-operations: their
/// write-backs, or an invalid micro-operation when one of them cannot be
/// executed.
pub open spec fn execute_all(uops: Seq<ExecuteInstType>) -> Result<Seq<WriteBack>, InternalException> {
    if forall|i: int| 0 <= i < uops.len() ==> #[trigger] executable(uops[i]) && execute_spec(uops[i]) is Ok {
        Ok(uops.map_values(|u: ExecuteInstType| execute_spec(u)->Ok_0))
    } else {
        Err(InternalException::InvalidMicroOp)
    }
}

/// The next instruction can be fetched: its fifteen-byte window lies in
/// the address space and can be read.
pub open spec fn fetchable(bus: BusView, rip: u64) -> bool {
    rip + MAX_INSTRUCTION_LENGTH <= usize::MAX + 1 && readable(
        bus_reader(bus),
        rip as usize,
        MAX_INSTRUCTION_LENGTH as nat,
    )
}

/// The instruction at the instruction pointer.
pub open spec fn next_inst(s: X86_64View) -> FetchedInst {
    fetch_spec(read_bytes(bus_reader(s.bus), s.rip as usize, MAX_INSTRUCTION_LENGTH as nat), s.rip)
}

/// A fetched instruction carried out on `s`: decoded with the registers
/// of `s`, its micro-operations executed and their write-backs applied in
/// order.
pub open spec fn execute_inst_spec(s: X86_64View, inst: FetchedInst) -> (
    X86_64View,
    Result<(), InternalException>,
) {
    match decode_spec(s.regs, inst) {
        Err(e) => (s, Err(e)),
        Ok(uops) => match execute_all(uops) {
            Err(e) => (s, Err(e)),
            Ok(wbs) => apply_wbs(s, wbs),
        },
    }
}

/// One cycle: fetch the instruction at the instruction pointer (a bus
/// error at the instruction pointer when its window cannot be read), move
/// past it and carry it out; a completed instruction is counted.
pub open spec fn step_spec(s: X86_64View) -> (X86_64View, Result<(), InternalException>) {
    if !fetchable(s.bus, s.rip) {
        (s, Err(InternalException::BusError { addr: s.rip }))
    } else {
        let inst = next_inst(s);
        let (s2, r) = execute_inst_spec(X86_64View { rip: inst.next_rip, ..s }, inst);
        if r is Err {
            (s2, r)
        } else {
            (X86_64View { executed_insts: (s.executed_insts + 1) as u64, ..s2 }, Ok(()))
        }
    }
}

/// A run: cycles while the CPU is running, until the first error, or until
/// the instruction counter is full.
pub open spec fn run_spec(s: X86_64View) -> (X86_64View, Result<(), InternalException>)
    decreases u64::MAX - s.executed_insts,
{
    if s.state != CpuState::Running || s.executed_insts == u64::MAX {
        (s, Ok(()))
    } else {
        let (s2, r) = step_spec(s);
        if r is Err {
            (s2, r)
        } else {
            run_spec(s2)
        }
    }
}

/// The error of the decode stage on an instruction that it cannot read:
/// a ModR/M operand that was not fetched, or a register number out of
/// range in the opcode byte.
pub open spec fn undecodable_error(inst: FetchedInst) -> InternalException {
    if inst.opcode.uses_modrm() && (inst.mod_rm.reg == Reg64Id::Unknown || inst.mod_rm.rm
        == Reg64Id::Unknown || inst.mod_rm.mode == crate::cpu::isa::modrm::ModRmModeField::Unused) {
        InternalException::ModRmRequired { opcode: inst.opcode }
    } else {
        InternalException::UndefinedInstruction { opcode: inst.opcode }
    }
}

/// An instruction window that can be read lies in RAM.
pub proof fn lemma_fetchable_in_ram(bus: BusView, rip: u64)
    requires
        fetchable(bus, rip),
    ensures
        rip <= crate::peripherals::interconnect::MEMORY_SIZE,
{
    assert(bus_reader(bus)((rip as usize + 0) as usize) is Some);
}

/// Write-backs leave the instruction counter alone.
pub proof fn lemma_apply_wbs_keeps_count(s: X86_64View, wbs: Seq<WriteBack>)
    ensures
        apply_wbs(s, wbs).0.executed_insts == s.executed_insts,
    decreases wbs.len(),
{
    if wbs.len() > 0 {
        let (s1, r) = apply_wb(s, wbs[0]);
        if r is Ok {
            lemma_apply_wbs_keeps_count(s1, wbs.drop_first());
        }
    }
}

/// The micro-operations of a decoded instruction all execute.
pub proof fn lemma_decoded_executable(regs: Seq<u64>, inst: FetchedInst)
    requires
        decodable(inst),
    ensures
        decode_spec(regs, inst) matches Ok(uops) ==> execute_all(uops) == Ok::<
            Seq<WriteBack>,
            InternalException,
        >(uops.map_values(|u: ExecuteInstType| execute_spec(u)->Ok_0)),
{
    if let Ok(uops) = decode_spec(regs, inst) {
        assert forall|i: int| 0 <= i < uops.len() implies #[trigger] executable(uops[i])
            && execute_spec(uops[i]) is Ok by {
        }
    }
}

impl X86_64 {
    /// The value of register `id`.
    pub fn read_register(&self, id: Reg64Id) -> (v: u64)
        requires
            id != Reg64Id::Unknown,
        ensures
            v == self@.regs[id.num()],
    {
        self.rf.read64(id)
    }

    /// Sets register `id` to `value`.
    pub fn write_register(&mut self, id: Reg64Id, value: u64)
        requires
            id != Reg64Id::Unknown,
        ensures
            final(self)@ == (X86_64View { regs: old(self)@.regs.update(id.num(), value), ..old(self)@ }),
    {
        self.rf.write64(id, value);
    }

    /// The address of the next instruction.
    pub fn get_rip(&self) -> (rip: u64)
        ensures
            rip == self@.rip,
    {
        self.fetch_unit.get_rip()
    }

    /// The number of instructions completed.
    pub fn executed_insts(&self) -> (n: u64)
        ensures
            n == self@.executed_insts,
    {
        self.executed_insts
    }

    /// The status dump of the CPU: how many instructions it completed, its
    /// instruction pointer and its registers.
    pub fn to_string(&self) -> (s: String)
        ensures
            s@ == status_text(self@),
    {
        proof {
            reveal_strlit("=== CPU status (");
            reveal_strlit(" instructions executed.)===\nRIP: 0x");
            reveal_strlit("\nRegisters:\n");
        }
        let mut s = String::from_str("=== CPU status (");
        push_digits(&mut s, self.executed_insts, 10);
        s.append(" instructions executed.)===\nRIP: 0x");
        push_padded_digits(&mut s, self.fetch_unit.get_rip(), 16, 8);
        s.append("\nRegisters:\n");
        let regs = self.rf.to_string();
        s.append(regs.as_str());
        s
    }

    /// Whether the CPU runs.
    pub fn state(&self) -> (st: CpuState)
        ensures
            st == self@.state,
    {
        self.state
    }

    /// The bus.
    pub fn mmio(&self) -> (bus: &Interconnect)
        ensures
            bus@ == self@.bus,
    {
        &self.mmio
    }

    /// Hands out the bytes that the serial port transmitted so far and
    /// empties its log.
    pub fn take_serial_output(&mut self) -> (out: Vec<u8>)
        ensures
            out@ == old(self)@.bus.serial,
            final(self)@ == (X86_64View {
                bus: BusView { serial: Seq::<u8>::empty(), ..old(self)@.bus },
                ..old(self)@
            }),
    {
        self.mmio.take_serial_output()
    }

    fn store(&mut self, addr: u64, data: WriteBackData) -> (ok: bool)
        ensures
            (final(self)@.bus, ok) == bus_store(old(self)@.bus, addr, data),
            final(self)@ == (X86_64View { bus: final(self)@.bus, ..old(self)@ }),
    {
        if addr > (usize::MAX - 7) as u64 {
            return false;
        }
        let a = addr as usize;
        proof {
            assert(bus_writer() =~= (|s: BusView, a: usize, d: u8|
                <Interconnect as MemoryAccess>::write_spec(s, a, d)));
        }
        let r = match data {
            WriteBackData::Byte(b) => self.mmio.write_u8(a, b),
            WriteBackData::Word(w) => self.mmio.write_u16(a, w),
            WriteBackData::DWord(d) => self.mmio.write_u32(a, d),
            WriteBackData::QWord(q) => self.mmio.write_u64(a, q),
        };
        r.is_ok()
    }

    fn write_back_one(&mut self, wb: &WriteBack) -> (r: Result<(), InternalException>)
        ensures
            (final(self)@, r) == apply_wb(old(self)@, *wb),
    {
        match *wb {
            WriteBack::Rip(next) => {
                self.fetch_unit.set_rip(next);
                Ok(())
            },
            WriteBack::GeneralRegister(dest, value) => {
                if dest == Reg64Id::Unknown {
                    return Err(InternalException::InvalidMicroOp);
                }
                self.rf.write64(dest, value);
                Ok(())
            },
            WriteBack::CpuState(next) => {
                self.state = next;
                Ok(())
            },
            WriteBack::Store(addr, data) => {
                if self.store(addr, data) {
                    Ok(())
                } else {
                    Err(InternalException::BusError { addr })
                }
            },
            WriteBack::Load(dest, addr) => {
                if dest == Reg64Id::Unknown {
                    return Err(InternalException::InvalidMicroOp);
                }
                match self.mmio.read_quad(addr) {
                    Ok(v) => {
                        self.rf.write64(dest, v);
                        Ok(())
                    },
                    Err(_) => Err(InternalException::BusError { addr }),
                }
            },
            WriteBack::Return(addr) => match self.mmio.read_quad(addr) {
                Ok(v) => {
                    self.fetch_unit.set_rip(v);
                    Ok(())
                },
                Err(_) => Err(InternalException::BusError { addr }),
            },
        }
    }
}

/// What the fetch stage makes of the bytes `program` at address `rip`:
/// the instruction, or a bus error at `rip` when fewer than fifteen bytes
/// are given or the window passes the end of the address space.
pub open spec fn fetch_result(program: Seq<u8>, rip: u64) -> Result<FetchedInst, InternalException> {
    if program.len() >= FETCH_WINDOW && rip + FETCH_WINDOW <= u64::MAX {
        Ok(fetch_spec(program, rip))
    } else {
        Err(InternalException::BusError { addr: rip })
    }
}

/// The CPU of a fresh machine on the bus `bus`: registers zero, at address
/// 0, nothing executed, running.
pub open spec fn reset_state(bus: BusView) -> X86_64View {
    X86_64View {
        regs: Seq::new(8, |i: int| 0u64),
        rip: 0,
        executed_insts: 0,
        bus,
        state: CpuState::Running,
    }
}

impl Pipeline for X86_64 {
    type Error = InternalException;
    type Fetched = FetchedInst;
    type Decoded = Vec<ExecuteInstType>;
    type Executed = Vec<WriteBack>;

    open spec fn fetched(&self, program: Seq<u8>, r: Result<FetchedInst, InternalException>) -> bool {
        r == fetch_result(program, self@.rip)
    }

    open spec fn decoded(&self, inst: FetchedInst, r: Result<Vec<ExecuteInstType>, InternalException>) -> bool {
        &&& decodable(inst) ==> match decode_spec(self@.regs, inst) {
            Ok(s) => r matches Ok(v) && v@ == s,
            Err(e) => r == Err::<Vec<ExecuteInstType>, InternalException>(e),
        }
        &&& !decodable(inst) ==> r == Err::<Vec<ExecuteInstType>, InternalException>(
            undecodable_error(inst),
        )
    }

    open spec fn executed(&self, uops: Vec<ExecuteInstType>, r: Result<Vec<WriteBack>, InternalException>) -> bool {
        match execute_all(uops@) {
            Ok(s) => r matches Ok(v) && v@ == s,
            Err(e) => r == Err::<Vec<WriteBack>, InternalException>(e),
        }
    }

    open spec fn written_back(&self, inst: Vec<WriteBack>, after: X86_64, r: Result<(), InternalException>) -> bool {
        (after@, r) == apply_wbs(self@, inst@)
    }

    /// Reads the instruction at the instruction pointer from `program`,
    /// the bytes there; the instruction pointer stays.
    fn fetch(&self, program: &[u8]) -> (r: Result<FetchedInst, InternalException>)
        ensures
            r == fetch_result(program@, self@.rip),
    {
        let rip = self.fetch_unit.get_rip();
        if program.len() < FETCH_WINDOW || rip > u64::MAX - FETCH_WINDOW as u64 {
            return Err(InternalException::BusError { addr: rip });
        }
        Ok(fetch_inst(program, rip))
    }

    /// Decodes with the current registers.
    fn decode(&self, inst: &FetchedInst) -> (r: Result<Vec<ExecuteInstType>, InternalException>)
        ensures
            decodable(*inst) ==> match decode_spec(self@.regs, *inst) {
                Ok(s) => r matches Ok(v) && v@ == s,
                Err(e) => r == Err::<Vec<ExecuteInstType>, InternalException>(e),
            },
            !decodable(*inst) ==> r == Err::<Vec<ExecuteInstType>, InternalException>(
                undecodable_error(*inst),
            ),
    {
        if !is_decodable(inst) {
            if inst.opcode.has_modrm() && (inst.mod_rm.reg == Reg64Id::Unknown || inst.mod_rm.rm
                == Reg64Id::Unknown || inst.mod_rm.mode == crate::cpu::isa::modrm::ModRmModeField::Unused) {
                return Err(InternalException::ModRmRequired { opcode: inst.opcode });
            }
            return Err(InternalException::UndefinedInstruction { opcode: inst.opcode });
        }
        decode(&self.rf, inst)
    }

    /// Executes the micro-operations in order.
    fn execute(&self, uops: &Vec<ExecuteInstType>) -> (r: Result<Vec<WriteBack>, InternalException>)
        ensures
            match execute_all(uops@) {
                Ok(s) => r matches Ok(v) && v@ == s,
                Err(e) => r == Err::<Vec<WriteBack>, InternalException>(e),
            },
    {
        let n = uops.len();
        let mut results: Vec<WriteBack> = Vec::new();
        let mut i: usize = 0;
        while i < n
            invariant
                n == uops@.len(),
                i <= n,
                results@.len() == i,
                forall|j: int| 0 <= j < i ==> executable(#[trigger] uops@[j]) && execute_spec(uops@[j]) is Ok,
                forall|j: int| 0 <= j < i ==> results@[j] == #[trigger] execute_spec(uops@[j])->Ok_0,
            decreases n - i,
        {
            let uop = &uops[i];
            if !is_executable(uop) {
                return Err(InternalException::InvalidMicroOp);
            }
            match ex_stage::execute(uop) {
                Ok(wb) => {
                    assert(executable(uops@[i as int]) && execute_spec(uops@[i as int]) is Ok);
                    results.push(wb);
                    i = i + 1;
                },
                Err(_) => {
                    return Err(InternalException::InvalidMicroOp);
                },
            }
        }
        assert(results@ =~= uops@.map_values(|u: ExecuteInstType| execute_spec(u)->Ok_0));
        Ok(results)
    }

    /// Applies the write-backs in order, stopping at the first that fails.
    fn write_back(&mut self, inst: &Vec<WriteBack>) -> (r: Result<(), InternalException>)
        ensures
            (final(self)@, r) == apply_wbs(old(self)@, inst@),
    {
        let n = inst.len();
        let mut i: usize = 0;
        assert(inst@.skip(0) =~= inst@);
        while i < n
            invariant
                n == inst@.len(),
                i <= n,
                apply_wbs(old(self)@, inst@) == apply_wbs(self@, inst@.skip(i as int)),
            decreases n - i,
        {
            proof {
                assert(inst@.skip(i as int)[0] == inst@[i as int]);
                assert(inst@.skip(i as int).drop_first() =~= inst@.skip(i + 1));
            }
            match self.write_back_one(&inst[i]) {
                Ok(()) => {
                    i = i + 1;
                },
                Err(e) => {
                    return Err(e);
                },
            }
        }
        proof {
            assert(inst@.skip(n as int) =~= Seq::<WriteBack>::empty());
        }
        Ok(())
    }
}

impl X86_64 {
    /// Runs one cycle: fetch, decode, execute and write back the
    /// instruction at the instruction pointer, and count it.
    pub fn step(&mut self) -> (r: Result<(), InternalException>)
        requires
            old(self)@.executed_insts < u64::MAX,
        ensures
            (final(self)@, r) == step_spec(old(self)@),
    {
        let ghost s0 = self@;
        let rip = self.fetch_unit.get_rip();
        proof {
            assert(bus_reader(s0.bus) =~= (|a: usize| <Interconnect as MemoryAccess>::read_spec(
                self.mmio@,
                a,
            )));
        }
        let candidate = match self.mmio.fetch_inst_candidate(rip) {
            Ok(c) => c,
            Err(_) => {
                return Err(InternalException::BusError { addr: rip });
            },
        };
        proof {
            lemma_fetchable_in_ram(s0.bus, rip);
            lemma_fetched_decodable(candidate@, rip);
        }
        let inst = match self.fetch_unit.fetch(candidate.as_slice()) {
            Ok(inst) => inst,
            Err(e) => {
                return Err(e);
            },
        };
        proof {
            lemma_decoded_executable(s0.regs, inst);
        }
        let uops = match self.decode(&inst) {
            Ok(u) => u,
            Err(e) => {
                return Err(e);
            },
        };
        let wbs = match self.execute(&uops) {
            Ok(w) => w,
            Err(e) => {
                return Err(e);
            },
        };
        proof {
            lemma_apply_wbs_keeps_count(self@, wbs@);
        }
        match self.write_back(&wbs) {
            Ok(()) => {},
            Err(e) => {
                return Err(e);
            },
        }
        self.executed_insts = self.executed_insts + 1;
        Ok(())
    }
}

impl CpuModel for X86_64 {
    type Error = InternalException;

    open spec fn reset_on(&self, bus: BusView) -> bool {
        self@ == reset_state(bus)
    }

    fn new(mmio: Interconnect) -> (cpu: X86_64)
        ensures
            cpu@ == reset_state(mmio@),
    {
        X86_64 {
            rf: RegisterFile::new(),
            fetch_unit: FetchUnit::new(),
            executed_insts: 0,
            mmio: mmio,
            state: CpuState::Running,
        }
    }

    /// Cycles while the CPU is running, until the first error or until the
    /// instruction counter is full.
    fn run(&mut self) -> (r: Result<(), InternalException>)
        ensures
            (final(self)@, r) == run_spec(old(self)@),
    {
        while self.state == CpuState::Running && self.executed_insts < u64::MAX
            invariant
                run_spec(self@) == run_spec(old(self)@),
            decreases u64::MAX - self.executed_insts,
        {
            match self.step() {
                Ok(()) => {},
                Err(e) => {
                    return Err(e);
                },
            }
        }
        Ok(())
    }
}

/// Stack discipline: a `push` of one register followed by a `pop` into
/// another register copies the value and leaves the stack pointer where it
/// was, when the eight bytes below the stack pointer are RAM.
pub proof fn lemma_push_pop(s: X86_64View, push: FetchedInst, pop: FetchedInst)
    requires
        push.opcode == Opcode::PushR,
        push.r < 8,
        pop.opcode == Opcode::PopR,
        pop.r < 8,
        pop.r != 4,
        well_shaped(s),
        8 <= s.regs[4] <= MEMORY_SIZE,
    ensures
        ({
            let (s1, r1) = execute_inst_spec(s, push);
            let (s2, r2) = execute_inst_spec(s1, pop);
            &&& r1 is Ok
            &&& r2 is Ok
            &&& s2.regs[pop.r as int] == s.regs[push.r as int]
            &&& s2.regs[4] == s.regs[4]
        }),
{
    reveal_with_fuel(apply_wbs, 3);
    let rsp = s.regs[4];
    let sp = (rsp - 8) as u64;
    lemma_reg64_numbers(push.r);
    lemma_reg64_numbers(pop.r);
    let v = s.regs[push.r as int];
    assert(decodable(push));
    assert(decodable(pop));
    lemma_decoded_executable(s.regs, push);
    assert(wsub(rsp, 8) == sp);
    lemma_bus_read_after_write(s.bus, sp as usize, v);
    let (s1, r1) = execute_inst_spec(s, push);
    assert(s1.regs == s.regs.update(4, sp));
    assert(s1.bus == bus_write_u64(s.bus, sp as usize, v).0);
    lemma_decoded_executable(s1.regs, pop);
    assert(wadd(sp, 8) == rsp);
}

/// Subroutine linkage: a `call` followed directly by a `ret` resumes at the
/// instruction after the call with the stack pointer where it was, when the
/// eight bytes below the stack pointer are RAM.
pub proof fn lemma_call_ret(s: X86_64View, call: FetchedInst, ret: FetchedInst)
    requires
        call.opcode == Opcode::CallRel32,
        ret.opcode == Opcode::Ret,
        call.r < 8,
        ret.r < 8,
        well_shaped(s),
        8 <= s.regs[4] <= MEMORY_SIZE,
    ensures
        ({
            let (s1, r1) = execute_inst_spec(s, call);
            let (s2, r2) = execute_inst_spec(s1, ret);
            &&& r1 is Ok
            &&& r2 is Ok
            &&& s1.rip == wadd(call.next_rip, call.displacement)
            &&& s2.rip == call.next_rip
            &&& s2.regs[4] == s.regs[4]
        }),
{
    reveal_with_fuel(apply_wbs, 4);
    let rsp = s.regs[4];
    let sp = (rsp - 8) as u64;
    assert(decodable(call));
    assert(decodable(ret));
    lemma_decoded_executable(s.regs, call);
    assert(wsub(rsp, 8) == sp);
    lemma_bus_read_after_write(s.bus, sp as usize, call.next_rip);
    let (s1, r1) = execute_inst_spec(s, call);
    assert(s1.regs == s.regs.update(4, sp));
    assert(s1.bus == bus_write_u64(s.bus, sp as usize, call.next_rip).0);
    lemma_decoded_executable(s1.regs, ret);
    assert(wadd(sp, 8) == rsp);
}

/// Every completed cycle is counted once.
pub proof fn lemma_step_counts(s: X86_64View)
    requires
        s.executed_insts < u64::MAX,
    ensures
        step_spec(s).1 is Ok ==> step_spec(s).0.executed_insts == s.executed_insts + 1,
{
}

/// A run that ends without error ends with the CPU halted, or with the
/// instruction counter full.
pub proof fn lemma_run_stops(s: X86_64View)
    ensures
        run_spec(s).1 is Ok ==> (run_spec(s).0.state != CpuState::Running || run_spec(s).0.executed_insts
            == u64::MAX),
    decreases u64::MAX - s.executed_insts,
{
    if s.state == CpuState::Running && s.executed_insts < u64::MAX {
        let (s2, r) = step_spec(s);
        if r is Ok {
            lemma_step_counts(s);
            lemma_run_stops(s2);
        }
    }
}

/// The shape of the machine that every cycle keeps: eight registers and a
/// RAM of `MEMORY_SIZE` bytes.
pub open spec fn well_shaped(s: X86_64View) -> bool {
    s.regs.len() == 8 && s.bus.memory.len() == MEMORY_SIZE
}

/// A store keeps the size of the RAM.
pub proof fn lemma_store_keeps_ram_size(bus: BusView, addr: u64, data: WriteBackData)
    ensures
        bus_store(bus, addr, data).0.memory.len() == bus.memory.len(),
{
    if addr + 7 <= usize::MAX {
        match data {
            WriteBackData::Byte(_) => {},
            WriteBackData::Word(w) => lemma_bus_writes_keep_ram_size(bus, addr as usize, le_bytes(w as u64, 2)),
            WriteBackData::DWord(d) => lemma_bus_writes_keep_ram_size(bus, addr as usize, le_bytes(d as u64, 4)),
            WriteBackData::QWord(q) => lemma_bus_write_u64_keeps_ram_size(bus, addr as usize, q),
        }
    }
}

/// Write-backs keep the shape of the machine, whether they succeed or not.
pub proof fn lemma_apply_wbs_keeps_shape(s: X86_64View, wbs: Seq<WriteBack>)
    requires
        well_shaped(s),
    ensures
        well_shaped(apply_wbs(s, wbs).0),
    decreases wbs.len(),
{
    if wbs.len() > 0 {
        if let WriteBack::Store(addr, data) = wbs[0] {
            lemma_store_keeps_ram_size(s.bus, addr, data);
        }
        let (s1, r) = apply_wb(s, wbs[0]);
        if r is Ok {
            lemma_apply_wbs_keeps_shape(s1, wbs.drop_first());
        }
    }
}

/// Every cycle keeps the shape of the machine.
pub proof fn lemma_step_keeps_shape(s: X86_64View)
    requires
        well_shaped(s),
    ensures
        well_shaped(step_spec(s).0),
{
    if fetchable(s.bus, s.rip) {
        let inst = next_inst(s);
        let s1 = X86_64View { rip: inst.next_rip, ..s };
        if let Ok(uops) = decode_spec(s1.regs, inst) {
            if let Ok(wbs) = execute_all(uops) {
                lemma_apply_wbs_keeps_shape(s1, wbs);
            }
        }
    }
}

/// A run keeps the shape of the machine.
pub proof fn lemma_run_keeps_shape(s: X86_64View)
    requires
        well_shaped(s),
    ensures
        well_shaped(run_spec(s).0),
    decreases u64::MAX - s.executed_insts,
{
    if s.state == CpuState::Running && s.executed_insts < u64::MAX {
        lemma_step_keeps_shape(s);
        let (s2, r) = step_spec(s);
        if r is Ok {
            lemma_step_counts(s);
            lemma_run_keeps_shape(s2);
        }
    }
}

/// A freshly reset machine on a bus with a full-size RAM is well shaped.
pub proof fn lemma_reset_is_well_shaped(bus: BusView)
    requires
        bus.memory.len() == MEMORY_SIZE,
    ensures
        well_shaped(reset_state(bus)),
{
}

/// Register instructions on the 64-bit CPU: `add r/m, r` adds the reg
/// register to the r/m register and `inc r/m` adds one to it, modulo 2^64;
/// `mov r/m, imm` in register mode and `mov r, imm32` load the immediate;
/// `jmp rel8` continues at the next instruction plus the displacement,
/// modulo 2^64; `hlt` halts. Nothing else changes.
pub proof fn lemma_register_instructions(s: X86_64View, inst: FetchedInst)
    requires
        s.regs.len() == 8,
        decodable(inst),
    ensures
        ({
            let m: int = 0x1_0000_0000_0000_0000;
            let rm = inst.mod_rm.rm.num();
            let reg = inst.mod_rm.reg.num();
            &&& (inst.opcode == Opcode::Add ==> execute_inst_spec(s, inst) == (
                X86_64View { regs: s.regs.update(rm, ((s.regs[rm] + s.regs[reg]) % m) as u64), ..s },
                Ok::<(), InternalException>(()),
            ))
            &&& (inst.opcode == Opcode::Inc ==> execute_inst_spec(s, inst) == (
                X86_64View { regs: s.regs.update(rm, ((s.regs[rm] + 1) % m) as u64), ..s },
                Ok::<(), InternalException>(()),
            ))
            &&& (inst.opcode == Opcode::MovRmImm32 && inst.mod_rm.mode == ModRmModeField::Direct
                ==> execute_inst_spec(s, inst) == (
                X86_64View { regs: s.regs.update(rm, inst.immediate), ..s },
                Ok::<(), InternalException>(()),
            ))
            &&& (inst.opcode == Opcode::MovImm32 ==> execute_inst_spec(s, inst) == (
                X86_64View { regs: s.regs.update(inst.r as int, inst.immediate), ..s },
                Ok::<(), InternalException>(()),
            ))
            &&& (inst.opcode == Opcode::JmpRel8 ==> execute_inst_spec(s, inst) == (
                X86_64View { rip: ((inst.next_rip + inst.displacement) % m) as u64, ..s },
                Ok::<(), InternalException>(()),
            ))
            &&& (inst.opcode == Opcode::Halt ==> execute_inst_spec(s, inst) == (
                X86_64View { state: CpuState::Halt, ..s },
                Ok::<(), InternalException>(()),
            ))
        }),
{
    reveal_with_fuel(apply_wbs, 2);
    if inst.opcode == Opcode::MovImm32 {
        lemma_reg64_numbers(inst.r);
    }
    lemma_decoded_executable(s.regs, inst);
}

/// Moves between a register and memory on the 64-bit CPU: `mov r, r/m`
/// with a memory operand loads the reg register with the quadword read at
/// the operand's address; `mov r/m, r` stores the reg register there, with
/// the width that the prefixes select. Nothing else changes.
pub proof fn lemma_memory_moves(s: X86_64View, inst: FetchedInst)
    requires
        s.regs.len() == 8,
        decodable(inst),
        inst.mod_rm.mode != ModRmModeField::Direct,
    ensures
        ({
            let reg = inst.mod_rm.reg.num();
            let addr = effective_address(s.regs, inst);
            &&& (inst.opcode == Opcode::MovToReg && bus_read_u64(s.bus, addr) is Some ==> execute_inst_spec(s, inst)
                == (
                X86_64View { regs: s.regs.update(reg, bus_read_u64(s.bus, addr).unwrap()), ..s },
                Ok::<(), InternalException>(()),
            ))
            &&& (inst.opcode == Opcode::MovToRm && bus_store(
                s.bus,
                addr,
                sized_data(s.regs[reg], store_size(inst)),
            ).1 ==> execute_inst_spec(s, inst) == (
                X86_64View { bus: bus_store(s.bus, addr, sized_data(s.regs[reg], store_size(inst))).0, ..s },
                Ok::<(), InternalException>(()),
            ))
        }),
{
    reveal_with_fuel(apply_wbs, 2);
    lemma_decoded_executable(s.regs, inst);
}

/// A store to RAM writes exactly the bytes of its width (one, two, four or
/// eight), least significant first, and leaves every other byte of RAM,
/// the serial port and the screen as they were.
pub proof fn lemma_store_to_ram(bus: BusView, addr: u64, data: WriteBackData, i: int)
    requires
        bus.memory.len() == MEMORY_SIZE,
        addr + 8 <= MEMORY_SIZE,
        0 <= i < MEMORY_SIZE,
    ensures
        ({
            let (n, v): (int, int) = match data {
                WriteBackData::Byte(b) => (1, b as int),
                WriteBackData::Word(w) => (2, w as int),
                WriteBackData::DWord(d) => (4, d as int),
                WriteBackData::QWord(q) => (8, q as int),
            };
            let after = bus_store(bus, addr, data);
            &&& after.1
            &&& after.0.serial == bus.serial
            &&& after.0.display == bus.display
            &&& after.0.memory.len() == MEMORY_SIZE
            &&& after.0.memory[i] == if addr <= i < addr + n {
                (v / pow256(i - addr)) % 256
            } else {
                bus.memory[i] as int
            }
        }),
{
    reveal_with_fuel(pow256, 8);
    let a = addr as usize;
    match data {
        WriteBackData::Byte(b) => {},
        WriteBackData::Word(w) => {
            lemma_bus_bytes_to_ram(bus, a, le_bytes(w as u64, 2));
            lemma_le_bytes_order(w as u64);
        },
        WriteBackData::DWord(d) => {
            lemma_bus_bytes_to_ram(bus, a, le_bytes(d as u64, 4));
            lemma_le_bytes_order(d as u64);
        },
        WriteBackData::QWord(q) => {
            lemma_write_bytes_to_ram(bus.memory, a, le_bytes(q, 8));
            lemma_le_bytes_order(q);
        },
    }
}

} // verus!
