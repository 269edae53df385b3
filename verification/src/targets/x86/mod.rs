//! The x86 CPU in real mode. It covers only the instructions needed to
//! boot a small operating system: one instruction per cycle through fetch,
//! decode, execute and write-back.

pub mod decoder;
pub mod executor;
pub mod fetcher;
pub mod gpr;
pub mod isa;
pub mod status_regs;

use crate::cpu::model::{CpuModel, Pipeline};
use crate::peripherals::interconnect::{bus_reader, bus_write_u64, BusView, Interconnect};
use crate::peripherals::memory_access::{read_bytes, MemoryAccess};
use crate::targets::x86_64::fetchable;
use self::decoder::{decode_spec, ExecuteInst};
use self::executor::{execute_spec, WriteBackType};
use self::fetcher::{fetch32_fits, fetch32_spec, opcode_byte, FetchedInst, FETCH_WINDOW};
use self::gpr::{Reg32, RegisterFile, SegReg, SegmentRegister, REGISTER_NUM, NUM_SEGMENT_REGSITERS};
use self::isa::eflags::EFlags;
use self::status_regs::CpuState;
use crate::bits::{lemma_byte_field_values, lemma_clear_low_bits, lemma_le_u16_value, lemma_le_u32_value};
use vstd::prelude::*;

verus! {

/// An error of the emulator itself, not an exception of the emulated CPU:
/// a message.
#[derive(Debug)]
pub struct CompatibleException(pub String);

/// The lower-case hexadecimal digit of `d < 16`.
pub open spec fn hex_digit(d: u8) -> char {
    if d < 10 {
        (48 + d) as char
    } else {
        (87 + d) as char
    }
}

/// `b` in lower-case hexadecimal, without leading zeros.
pub open spec fn hex_text(b: u8) -> Seq<char> {
    if b < 16 {
        seq![hex_digit(b)]
    } else {
        seq![hex_digit(b / 16), hex_digit(b % 16)]
    }
}

/// The message of an undefined opcode byte `b`.
pub open spec fn undefined_opcode_text(b: u8) -> Seq<char> {
    "Encounters undefined opcode: '0x"@ + hex_text(b) + "' in fetch stage."@
}

/// The message of a failed access to the bus.
pub open spec fn invalid_memory_text() -> Seq<char> {
    "Invalid memory operation."@
}

/// The message of an instruction pointer that would pass the end of the
/// address space.
pub open spec fn ip_overflow_text() -> Seq<char> {
    "Instruction pointer overflow."@
}

/// The lower-case hexadecimal digit of `d < 16`, as text.
fn hex_digit_str(d: u8) -> (s: &'static str)
    requires
        d < 16,
    ensures
        s@ == seq![hex_digit(d)],
{
    match d {
        0 => {
            proof {
                reveal_strlit("0");
            }
            "0"
        },
        1 => {
            proof {
                reveal_strlit("1");
            }
            "1"
        },
        2 => {
            proof {
                reveal_strlit("2");
            }
            "2"
        },
        3 => {
            proof {
                reveal_strlit("3");
            }
            "3"
        },
        4 => {
            proof {
                reveal_strlit("4");
            }
            "4"
        },
        5 => {
            proof {
                reveal_strlit("5");
            }
            "5"
        },
        6 => {
            proof {
                reveal_strlit("6");
            }
            "6"
        },
        7 => {
            proof {
                reveal_strlit("7");
            }
            "7"
        },
        8 => {
            proof {
                reveal_strlit("8");
            }
            "8"
        },
        9 => {
            proof {
                reveal_strlit("9");
            }
            "9"
        },
        10 => {
            proof {
                reveal_strlit("a");
            }
            "a"
        },
        11 => {
            proof {
                reveal_strlit("b");
            }
            "b"
        },
        12 => {
            proof {
                reveal_strlit("c");
            }
            "c"
        },
        13 => {
            proof {
                reveal_strlit("d");
            }
            "d"
        },
        14 => {
            proof {
                reveal_strlit("e");
            }
            "e"
        },
        _ => {
            proof {
                reveal_strlit("f");
            }
            "f"
        },
    }
}

/// The message of an undefined opcode byte: the byte in lower-case
/// hexadecimal without leading zeros.
fn undefined_opcode_message(candidate: u8) -> (s: String)
    ensures
        s@ == undefined_opcode_text(candidate),
{
    proof {
        reveal_strlit("Encounters undefined opcode: '0x");
        reveal_strlit("' in fetch stage.");
    }
    let mut s = String::from_str("Encounters undefined opcode: '0x");
    if candidate >= 16 {
        s.append(hex_digit_str(candidate / 16));
    }
    s.append(hex_digit_str(candidate % 16));
    s.append("' in fetch stage.");
    assert(s@ =~= undefined_opcode_text(candidate));
    s
}

/// The state of the real-mode CPU and its bus, as values.
pub struct X86View {
    /// The instruction pointer.
    pub ip: u64,
    /// The general purpose registers, by number.
    pub regs: Seq<u64>,
    /// The segment registers, by number.
    pub segs: Seq<u64>,
    /// The bits of EFLAGS.
    pub eflags: u32,
    pub bus: BusView,
    pub state: CpuState,
}

/// The real-mode CPU.
pub struct X86 {
    ip: u64,
    mmio: Interconnect,
    rf: RegisterFile,
    segment: SegmentRegister,
    eflags: EFlags,
    state: CpuState,
}

impl View for X86 {
    type V = X86View;

    closed spec fn view(&self) -> X86View {
        X86View {
            ip: self.ip,
            regs: self.rf@,
            segs: self.segment@,
            eflags: self.eflags.value(),
            bus: self.mmio@,
            state: self.state,
        }
    }
}

/// The state after a write-back, and its outcome: a register, a segment
/// register, flags or the run state are set; a store writes the quadword
/// to the bus (the message of a failed access when the bus refuses).
pub open spec fn write_back_spec(s: X86View, wb: WriteBackType) -> (X86View, Result<(), Seq<char>>) {
    match wb {
        WriteBackType::Gpr(w) => (X86View { regs: s.regs.update(w.index.num(), w.value), ..s }, Ok(())),
        WriteBackType::Store(w) => if w.index + 7 <= usize::MAX {
            let (bus, ok) = bus_write_u64(s.bus, w.index, w.value);
            (
                X86View { bus, ..s },
                if ok {
                    Ok(())
                } else {
                    Err(invalid_memory_text())
                },
            )
        } else {
            (s, Err(invalid_memory_text()))
        },
        WriteBackType::Segment(w) => (X86View { segs: s.segs.update(w.index.num(), w.value), ..s }, Ok(())),
        WriteBackType::EFlags(w) => (
            X86View {
                eflags: if w.value {
                    s.eflags | w.target.value()
                } else {
                    s.eflags & !w.target.value()
                },
                ..s
            },
            Ok(()),
        ),
        WriteBackType::Status(w) => (X86View { state: w.state, ..s }, Ok(())),
    }
}

/// One instruction whose bytes start `program`: fetch it (the bytes must
/// hold the whole instruction), move the instruction pointer past it, decode it
/// with the registers, execute it and write back.
pub open spec fn step32_spec(s: X86View, program: Seq<u8>) -> (X86View, Result<(), Seq<char>>) {
    if !fetch32_fits(program) {
        (s, Err(invalid_memory_text()))
    } else {
        match fetch32_spec(program) {
            None => (s, Err(undefined_opcode_text(opcode_byte(program)))),
            Some(inst) => if s.ip + inst.inst_bytes > u64::MAX {
                (s, Err(ip_overflow_text()))
            } else {
                let s1 = X86View { ip: (s.ip + inst.inst_bytes) as u64, ..s };
                match decode_spec(inst, s.regs) {
                    Err(msg) => (s1, Err(msg)),
                    Ok(d) => write_back_spec(s1, execute_spec(d)),
                }
            },
        }
    }
}

/// A run of at most `fuel` instructions: while the CPU runs, fetch the
/// window at the instruction pointer (a failed read is an invalid memory
/// operation) and execute one instruction, until the first error.
pub open spec fn run32_spec(s: X86View, fuel: nat) -> (X86View, Result<(), Seq<char>>)
    decreases fuel,
{
    if fuel == 0 || s.state != CpuState::Running {
        (s, Ok(()))
    } else if !fetchable(s.bus, s.ip) {
        (s, Err(invalid_memory_text()))
    } else {
        let (s2, r) = step32_spec(
            s,
            read_bytes(bus_reader(s.bus), s.ip as usize, FETCH_WINDOW as nat),
        );
        if r is Err {
            (s2, r)
        } else {
            run32_spec(s2, (fuel - 1) as nat)
        }
    }
}

/// An outcome of the spec functions matches a result of the CPU: the same
/// success, or an error with the same message.
pub open spec fn outcome_matches(r: Result<(), CompatibleException>, o: Result<(), Seq<char>>) -> bool {
    match o {
        Ok(_) => r is Ok,
        Err(msg) => r matches Err(e) && e.0@ == msg,
    }
}

/// The CPU of a fresh machine on the bus `bus`: every register all ones,
/// instruction pointer 0, no flag set, running.
pub open spec fn power_on_state(bus: BusView) -> X86View {
    X86View {
        ip: 0,
        regs: Seq::new(REGISTER_NUM as nat, |i: int| 0xffff_ffff_ffff_ffffu64),
        segs: Seq::new(NUM_SEGMENT_REGSITERS as nat, |i: int| 0xffff_ffff_ffff_ffffu64),
        eflags: 0,
        bus,
        state: CpuState::Running,
    }
}

/// The real-mode CPU always holds eight general purpose registers and six
/// segment registers.
pub proof fn lemma_register_counts(cpu: &X86)
    ensures
        cpu@.regs.len() == REGISTER_NUM,
        cpu@.segs.len() == NUM_SEGMENT_REGSITERS,
{
    gpr::lemma_register_count(&cpu.rf);
    gpr::lemma_segment_count(&cpu.segment);
}

/// A register of the real-mode CPU reads back what `write_register` wrote
/// to it, and a write leaves the other registers alone.
pub proof fn lemma_cpu_read_after_write(before: X86View, after: X86View, index: Reg32, value: u64, other: Reg32)
    requires
        before.regs.len() == REGISTER_NUM,
        after == (X86View { regs: before.regs.update(index.num(), value), ..before }),
        other != index,
    ensures
        after.regs[index.num()] == value,
        after.regs[other.num()] == before.regs[other.num()],
        after.ip == before.ip && after.segs == before.segs && after.bus == before.bus,
{
}

impl X86 {
    /// The state that the BIOS leaves: `ax` holds the boot signature
    /// 0xaa55, the stack pointer 0x6f2c, and execution starts at 0x7c00.
    pub fn boot_bios(&mut self)
        ensures
            final(self)@ == (X86View {
                ip: 0x7c00,
                regs: old(self)@.regs.update(Reg32::Eax.num(), 0xaa55).update(Reg32::Esp.num(), 0x6f2c),
                ..old(self)@
            }),
    {
        self.rf.write_u64(Reg32::Eax, 0xaa55u64);
        self.rf.write_u64(Reg32::Esp, 0x6f2cu64);
        self.ip = 0x7c00u64;
    }

    /// The value of register `index`.
    pub fn read_register(&self, index: Reg32) -> (v: u64)
        ensures
            v == self@.regs[index.num()],
    {
        self.rf.read_u64(index)
    }

    /// Sets register `index` to `value`.
    pub fn write_register(&mut self, index: Reg32, value: u64)
        ensures
            final(self)@ == (X86View { regs: old(self)@.regs.update(index.num(), value), ..old(self)@ }),
    {
        self.rf.write_u64(index, value);
    }

    /// The value of segment register `index`.
    pub fn read_segment(&self, index: SegReg) -> (v: u64)
        ensures
            v == self@.segs[index.num()],
    {
        self.segment.read_u64(index)
    }

    /// The instruction pointer.
    pub fn get_ip(&self) -> (ip: u64)
        ensures
            ip == self@.ip,
    {
        self.ip
    }

    /// The EFLAGS register.
    pub fn eflags(&self) -> (f: EFlags)
        ensures
            f.value() == self@.eflags,
    {
        self.eflags
    }

    /// Sets (`value` true) or clears the flags `target`.
    pub fn set_eflags(&mut self, target: EFlags, value: bool)
        ensures
            final(self)@ == (X86View {
                eflags: if value {
                    old(self)@.eflags | target.value()
                } else {
                    old(self)@.eflags & !target.value()
                },
                ..old(self)@
            }),
    {
        self.eflags.set(target, value);
    }

    /// Whether the CPU runs.
    pub fn state(&self) -> (st: CpuState)
        ensures
            st == self@.state,
    {
        self.state
    }

    /// The bus.
    pub fn mmio(&self) -> (bus: &Interconnect)
        ensures
            bus@ == self@.bus,
    {
        &self.mmio
    }
}

impl Pipeline for X86 {
    type Error = CompatibleException;
    type Fetched = FetchedInst;
    type Decoded = ExecuteInst;
    type Executed = WriteBackType;

    open spec fn fetched(&self, program: Seq<u8>, r: Result<FetchedInst, CompatibleException>) -> bool {
        &&& !fetch32_fits(program) ==> (r matches Err(e) && e.0@ == invalid_memory_text())
        &&& fetch32_fits(program) ==> match fetch32_spec(program) {
            Some(inst) => r == Ok::<FetchedInst, CompatibleException>(inst),
            None => r matches Err(e) && e.0@ == undefined_opcode_text(opcode_byte(program)),
        }
    }

    open spec fn decoded(&self, inst: FetchedInst, r: Result<ExecuteInst, CompatibleException>) -> bool {
        match decode_spec(inst, self@.regs) {
            Ok(d) => r == Ok::<ExecuteInst, CompatibleException>(d),
            Err(msg) => r matches Err(e) && e.0@ == msg,
        }
    }

    open spec fn executed(&self, inst: ExecuteInst, r: Result<WriteBackType, CompatibleException>) -> bool {
        r == Ok::<WriteBackType, CompatibleException>(execute_spec(inst))
    }

    open spec fn written_back(&self, inst: WriteBackType, after: X86, r: Result<(), CompatibleException>) -> bool {
        &&& after@ == write_back_spec(self@, inst).0
        &&& outcome_matches(r, write_back_spec(self@, inst).1)
    }

    /// Runs the instruction whose bytes start `program`.
    fn execute_an_instruction(&mut self, program: &[u8]) -> (r: Result<(), CompatibleException>)
        ensures
            final(self)@ == step32_spec(old(self)@, program@).0,
            outcome_matches(r, step32_spec(old(self)@, program@).1),
    {
        let fetched_inst = match self.fetch(program) {
            Ok(inst) => inst,
            Err(e) => {
                return Err(e);
            },
        };
        self.ip = match self.ip.checked_add(fetched_inst.inst_bytes) {
            Some(ip) => ip,
            None => {
                return Err(CompatibleException("Instruction pointer overflow.".to_owned()));
            },
        };
        let decoded_inst = match decoder::decode(&fetched_inst, &self.rf) {
            Ok(d) => d,
            Err(e) => {
                return Err(e);
            },
        };
        let write_back_packet = match executor::execute(&decoded_inst) {
            Ok(w) => w,
            Err(e) => {
                return Err(e);
            },
        };
        self.write_back(&write_back_packet)
    }

    /// Fetches the instruction whose bytes start `program`; bytes that do
    /// not hold the whole instruction are an invalid memory operation.
    fn fetch(&self, program: &[u8]) -> (r: Result<FetchedInst, CompatibleException>)
        ensures
            !fetch32_fits(program@) ==> (r matches Err(e) && e.0@ == invalid_memory_text()),
            fetch32_fits(program@) ==> match fetch32_spec(program@) {
                Some(inst) => r == Ok::<FetchedInst, CompatibleException>(inst),
                None => r matches Err(e) && e.0@ == undefined_opcode_text(opcode_byte(program@)),
            },
    {
        if !fetcher::fits(program) {
            return Err(CompatibleException("Invalid memory operation.".to_owned()));
        }
        fetcher::fetch(program)
    }

    /// Decodes with the current registers.
    fn decode(&self, inst: &FetchedInst) -> (r: Result<ExecuteInst, CompatibleException>)
        ensures
            match decode_spec(*inst, self@.regs) {
                Ok(d) => r == Ok::<ExecuteInst, CompatibleException>(d),
                Err(msg) => r matches Err(e) && e.0@ == msg,
            },
    {
        decoder::decode(inst, &self.rf)
    }

    /// Executes a decoded instruction; this never fails.
    fn execute(&self, inst: &ExecuteInst) -> (r: Result<WriteBackType, CompatibleException>)
        ensures
            r == Ok::<WriteBackType, CompatibleException>(execute_spec(*inst)),
    {
        executor::execute(inst)
    }

    /// Applies a write-back.
    fn write_back(&mut self, inst: &WriteBackType) -> (r: Result<(), CompatibleException>)
        ensures
            final(self)@ == write_back_spec(old(self)@, *inst).0,
            outcome_matches(r, write_back_spec(old(self)@, *inst).1),
    {
        match *inst {
            WriteBackType::Gpr(w) => {
                self.rf.write_u64(w.index, w.value);
            },
            WriteBackType::Store(w) => {
                if w.index > usize::MAX - 7 {
                    return Err(CompatibleException("Invalid memory operation.".to_owned()));
                }
                if self.mmio.write_u64(w.index, w.value).is_err() {
                    return Err(CompatibleException("Invalid memory operation.".to_owned()));
                }
            },
            WriteBackType::Segment(w) => {
                self.segment.write_u64(w.index, w.value);
            },
            WriteBackType::EFlags(w) => {
                self.eflags.set(w.target, w.value);
            },
            WriteBackType::Status(w) => {
                self.state = w.state;
            },
        }
        Ok(())
    }
}

impl CpuModel for X86 {
    type Error = CompatibleException;

    open spec fn reset_on(&self, bus: BusView) -> bool {
        self@ == power_on_state(bus)
    }

    fn new(mmio: Interconnect) -> (cpu: X86)
        ensures
            cpu@ == power_on_state(mmio@),
    {
        X86 {
            ip: 0,
            mmio: mmio,
            rf: RegisterFile::new(),
            segment: SegmentRegister::new(),
            eflags: EFlags::empty(),
            state: CpuState::Running,
        }
    }

    /// Runs while the CPU is running, at most `u64::MAX` instructions,
    /// until the first error.
    fn run(&mut self) -> (r: Result<(), CompatibleException>)
        ensures
            final(self)@ == run32_spec(old(self)@, u64::MAX as nat).0,
            outcome_matches(r, run32_spec(old(self)@, u64::MAX as nat).1),
    {
        let mut fuel: u64 = u64::MAX;
        while self.state == CpuState::Running && fuel > 0
            invariant
                run32_spec(self@, fuel as nat) == run32_spec(old(self)@, u64::MAX as nat),
            decreases fuel,
        {
            let ghost s = self@;
            proof {
                assert(bus_reader(s.bus) =~= (|a: usize| <Interconnect as MemoryAccess>::read_spec(
                    self.mmio@,
                    a,
                )));
            }
            let inst_candidate = match self.mmio.fetch_inst_candidate(self.ip) {
                Ok(c) => c,
                Err(_) => {
                    return Err(CompatibleException("Invalid memory operation.".to_owned()));
                },
            };
            match self.execute_an_instruction(inst_candidate.as_slice()) {
                Ok(()) => {},
                Err(e) => {
                    return Err(e);
                },
            }
            fuel = fuel - 1;
        }
        Ok(())
    }
}

/// `xor r, r` in register form clears `r`: the exclusive or of a value
/// with itself is zero.
pub proof fn lemma_xor_self_clears(s: X86View, inst: FetchedInst)
    requires
        inst.opcode == isa::opcode::Opcode::Xor,
        inst.modrm matches Some(m) && m.mode == 3 && m.reg == m.rm,
        s.regs.len() == REGISTER_NUM,
    ensures
        decode_spec(inst, s.regs) is Ok,
        write_back_spec(s, execute_spec(decode_spec(inst, s.regs)->Ok_0)).0.regs[inst.modrm.unwrap().reg.num()]
            == 0,
        write_back_spec(s, execute_spec(decode_spec(inst, s.regs)->Ok_0)).1 is Ok,
{
    let m = inst.modrm.unwrap();
    let x = s.regs[m.reg.num()];
    assert(x ^ x == 0) by (bit_vector);
}

/// `cld` clears the direction flag (bit 10) of EFLAGS and keeps the
/// others.
pub proof fn lemma_cld_clears_direction(s: X86View, inst: FetchedInst)
    requires
        inst.opcode == isa::opcode::Opcode::Cld,
    ensures
        decode_spec(inst, s.regs) is Ok,
        ({
            let s2 = write_back_spec(s, execute_spec(decode_spec(inst, s.regs)->Ok_0)).0;
            &&& s2.eflags & 1024 == 0
            &&& s2.eflags | 1024 == s.eflags | 1024
        }),
{
    EFlags::lemma_direction_flag();
    let e = s.eflags;
    assert((e & !1024u32) & 1024 == 0) by (bit_vector);
    assert((e & !1024u32) | 1024 == e | 1024) by (bit_vector);
}

/// `xor` in register mode (ModR/M byte 0b11_reg_rm) sets the reg register
/// to the bitwise exclusive or of the reg and r/m registers, leaves every
/// other register, the segment registers, the flags and the bus alone, and
/// moves the instruction pointer past its two bytes.
pub proof fn lemma_xor_registers(s: X86View, program: Seq<u8>)
    requires
        s.regs.len() == REGISTER_NUM,
        program.len() >= 2,
        program[0] == 0x31,
        program[1] >= 0xc0,
        s.ip + 2 <= u64::MAX,
    ensures
        ({
            let reg = (program[1] / 8) % 8;
            let rm = program[1] % 8;
            step32_spec(s, program) == (
                X86View { ip: (s.ip + 2) as u64, regs: s.regs.update(reg as int, s.regs[reg as int] ^ s.regs[rm as int]), ..s },
                Ok::<(), Seq<char>>(()),
            )
        }),
{
    let m = program[1];
    lemma_byte_field_values(m);
    gpr::lemma_reg32_numbers(((m / 8) % 8) as u8);
    gpr::lemma_reg32_numbers((m % 8) as u8);
}

/// The little-endian value of the `n` bytes of `b` at `off`.
pub open spec fn le_at(b: Seq<u8>, off: int, n: nat) -> int
    decreases n,
{
    if n == 0 {
        0
    } else {
        b[off] + 0x100 * le_at(b, off + 1, (n - 1) as nat)
    }
}

/// `mov r, imm` (0xb8 + r) loads register r with the immediate that follows
/// the opcode: two bytes, or four under the address-size prefix 0x67; the
/// instruction pointer moves past it and nothing else changes.
pub proof fn lemma_mov_immediate(s: X86View, program: Seq<u8>)
    requires
        s.regs.len() == REGISTER_NUM,
        program.len() >= 6,
        s.ip + 6 <= u64::MAX,
    ensures
        ({
            let o = program[0];
            0xb8 <= o <= 0xbf ==> step32_spec(s, program) == (
                X86View {
                    ip: (s.ip + 3) as u64,
                    regs: s.regs.update(o - 0xb8, le_at(program, 1, 2) as u64),
                    ..s
                },
                Ok::<(), Seq<char>>(()),
            )
        }),
        ({
            let o = program[1];
            program[0] == 0x67 && 0xb8 <= o <= 0xbf ==> step32_spec(s, program) == (
                X86View {
                    ip: (s.ip + 6) as u64,
                    regs: s.regs.update(o - 0xb8, le_at(program, 2, 4) as u64),
                    ..s
                },
                Ok::<(), Seq<char>>(()),
            )
        }),
{
    let o0 = program[0];
    let o1 = program[1];
    lemma_clear_low_bits(o0);
    lemma_clear_low_bits(o1);
    lemma_byte_field_values(o0);
    lemma_byte_field_values(o1);
    if 0xb8 <= o0 <= 0xbf {
        gpr::lemma_reg32_numbers((o0 % 8) as u8);
    }
    if 0xb8 <= o1 <= 0xbf {
        gpr::lemma_reg32_numbers((o1 % 8) as u8);
    }
    lemma_le_u16_value(program.subrange(1, 3));
    lemma_le_u32_value(program.subrange(2, 6));
    assert(le_at(program, 1, 2) == program[1] + 0x100 * program[2]) by {
        reveal_with_fuel(le_at, 3);
    }
    assert(le_at(program, 2, 4) == program[2] + 0x100 * program[3] + 0x1_0000 * program[4] + 0x100_0000
        * program[5]) by {
        reveal_with_fuel(le_at, 5);
    }
}

/// `hlt` halts the CPU and `cld` clears the direction flag (bit 10) of
/// EFLAGS; each is one byte, and nothing else changes.
pub proof fn lemma_hlt_cld(s: X86View, program: Seq<u8>)
    requires
        program.len() >= 1,
        s.ip + 1 <= u64::MAX,
    ensures
        program[0] == 0xf4 ==> step32_spec(s, program) == (
            X86View { ip: (s.ip + 1) as u64, state: CpuState::Halted, ..s },
            Ok::<(), Seq<char>>(()),
        ),
        program[0] == 0xfc ==> step32_spec(s, program) == (
            X86View { ip: (s.ip + 1) as u64, eflags: s.eflags & !0x400u32, ..s },
            Ok::<(), Seq<char>>(()),
        ),
{
    EFlags::lemma_direction_flag();
}

/// `mov sreg, r` (0x8e, register mode) copies the r/m register into the
/// segment register that the reg field names (0 to 5), and `mov r/m, r`
/// (0x89, register mode) writes the reg register as a quadword to the bus
/// at the address in the r/m register.
pub proof fn lemma_register_moves(s: X86View, program: Seq<u8>)
    requires
        s.regs.len() == REGISTER_NUM,
        s.segs.len() == NUM_SEGMENT_REGSITERS,
        program.len() >= 2,
        program[1] >= 0xc0,
        s.ip + 2 <= u64::MAX,
    ensures
        ({
            let reg = (program[1] / 8) % 8;
            let rm = program[1] % 8;
            &&& (program[0] == 0x8e && reg < 6 ==> step32_spec(s, program) == (
                X86View { ip: (s.ip + 2) as u64, segs: s.segs.update(reg as int, s.regs[rm as int]), ..s },
                Ok::<(), Seq<char>>(()),
            ))
            &&& (program[0] == 0x89 && s.regs[rm as int] + 7 <= usize::MAX ==> step32_spec(s, program).0 == (
                X86View {
                    ip: (s.ip + 2) as u64,
                    bus: bus_write_u64(s.bus, s.regs[rm as int] as usize, s.regs[reg as int]).0,
                    ..s
                }))
        }),
{
    let m = program[1];
    lemma_byte_field_values(m);
    gpr::lemma_reg32_numbers(((m / 8) % 8) as u8);
    gpr::lemma_reg32_numbers((m % 8) as u8);
}

/// `lea r, [disp32]` under the address-size prefix (0x67 0x8d, ModR/M mode
/// 0 with r/m 0b101) loads the reg register with the four-byte
/// displacement; the instruction is seven bytes long and nothing else
/// changes.
pub proof fn lemma_lea_displacement(s: X86View, program: Seq<u8>)
    requires
        s.regs.len() == REGISTER_NUM,
        program.len() >= 7,
        program[0] == 0x67,
        program[1] == 0x8d,
        program[2] < 0x40,
        program[2] % 8 == 5,
        s.ip + 7 <= u64::MAX,
    ensures
        step32_spec(s, program) == (
            X86View {
                ip: (s.ip + 7) as u64,
                regs: s.regs.update(((program[2] / 8) % 8) as int, le_at(program, 3, 4) as u64),
                ..s
            },
            Ok::<(), Seq<char>>(()),
        ),
{
    let m = program[2];
    lemma_byte_field_values(m);
    gpr::lemma_reg32_numbers(((m / 8) % 8) as u8);
    gpr::lemma_reg32_numbers((m % 8) as u8);
    lemma_le_u32_value(program.subrange(3, 7));
    assert(le_at(program, 3, 4) == program[3] + 0x100 * program[4] + 0x1_0000 * program[5] + 0x100_0000
        * program[6]) by {
        reveal_with_fuel(le_at, 5);
    }
}

} // verus!
