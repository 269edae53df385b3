//! The bus that maps the address space onto RAM, the VGA text screen and
//! the serial port.

use crate::bits::{le_bytes, le_u64, lemma_le_bytes_order, lemma_le_u64_roundtrip};
use crate::display::{
    lemma_vga_write_then_read, screen_char_of, vga_write_u16, ScreenChar, VgaTextBuffer, VgaTextMode, COL, ROW,
};
use crate::peripherals::memory::{
    lemma_ram_writes_keep_size, lemma_write_bytes_to_ram, memory_writer, Memory,
};
use crate::peripherals::memory_access::{
    read_bytes, readable, write_bytes, MemoryAccess, MemoryAccessError, Result,
};
use crate::peripherals::uart16550::Uart16550;
use vstd::prelude::*;

verus! {

/// The longest x86 instruction, in bytes.
pub const MAX_INSTRUCTION_LENGTH: usize = 15;

/// Size of the RAM, in bytes. RAM answers at addresses `0..=MEMORY_SIZE`.
pub const MEMORY_SIZE: usize = 0x10000;

/// First address of the VGA text memory.
pub const VGA_START: usize = 0xb8000;

/// Last address of the VGA text memory.
pub const VGA_END: usize = 0xb8fa0;

/// Address of the serial port's transmit register.
pub const SERIAL_ADDR: usize = 0x10000000;

/// The devices on a bus, as values.
pub struct BusView {
    pub memory: Seq<u8>,
    pub serial: Seq<u8>,
    pub display: Seq<ScreenChar>,
}

/// The bus of the emulated machine.
pub struct Interconnect {
    memory: Memory,
    serial: Uart16550,
    display: VgaTextBuffer,
}

impl View for Interconnect {
    type V = BusView;

    closed spec fn view(&self) -> BusView {
        BusView { memory: self.memory@, serial: self.serial@, display: self.display@ }
    }
}

/// `read_spec` of the bus in state `s`, as a function of the address.
pub open spec fn bus_reader(s: BusView) -> spec_fn(usize) -> Option<u8> {
    |a: usize| <Interconnect as MemoryAccess>::read_spec(s, a)
}

/// `write_spec` of the bus, as a function.
pub open spec fn bus_writer() -> spec_fn(BusView, usize, u8) -> Option<BusView> {
    |s: BusView, a: usize, d: u8| <Interconnect as MemoryAccess>::write_spec(s, a, d)
}

/// The little-endian quadword at `addr` of the bus in state `s`, or `None`
/// when one of its eight bytes cannot be read.
pub open spec fn bus_read_u64(s: BusView, addr: u64) -> Option<u64> {
    if addr + 7 <= usize::MAX && readable(bus_reader(s), addr as usize, 8) {
        Some(le_u64(read_bytes(bus_reader(s), addr as usize, 8)))
    } else {
        None
    }
}

/// The bus after an eight-byte write to `addr`, and whether it succeeded:
/// RAM takes the eight little-endian bytes (up to the first address past
/// its end), the VGA text memory takes the low sixteen bits as one
/// character cell at `addr & 0xfff`, the serial port transmits the low
/// byte; anywhere else the write fails.
pub open spec fn bus_write_u64(s: BusView, addr: usize, data: u64) -> (BusView, bool) {
    if addr <= MEMORY_SIZE {
        let (m, ok) = write_bytes(memory_writer(), s.memory, addr, le_bytes(data, 8));
        (BusView { memory: m, ..s }, ok)
    } else if VGA_START <= addr && addr <= VGA_END {
        (BusView { display: vga_write_u16(s.display, addr & 0xfff, data as u16), ..s }, true)
    } else if addr == SERIAL_ADDR {
        (BusView { serial: s.serial.push(data as u8), ..s }, true)
    } else {
        (s, false)
    }
}

impl MemoryAccess for Interconnect {
    /// Only RAM can be read.
    open spec fn read_spec(state: BusView, addr: usize) -> Option<u8> {
        if addr <= MEMORY_SIZE {
            <Memory as MemoryAccess>::read_spec(state.memory, addr)
        } else {
            None
        }
    }

    /// A byte write goes to RAM, is taken and dropped by the VGA text
    /// memory, or is transmitted by the serial port; anywhere else it fails.
    open spec fn write_spec(state: BusView, addr: usize, data: u8) -> Option<BusView> {
        if addr <= MEMORY_SIZE {
            match <Memory as MemoryAccess>::write_spec(state.memory, addr, data) {
                Some(m) => Some(BusView { memory: m, ..state }),
                None => None,
            }
        } else if VGA_START <= addr && addr <= VGA_END {
            Some(state)
        } else if addr == SERIAL_ADDR {
            Some(BusView { serial: state.serial.push(data), ..state })
        } else {
            None
        }
    }

    fn read_u8(&self, addr: usize) -> (r: Result<u8>) {
        if addr <= MEMORY_SIZE {
            self.memory.read_u8(addr)
        } else {
            Err(MemoryAccessError)
        }
    }

    fn write_u8(&mut self, addr: usize, data: u8) -> (r: Result<()>) {
        if addr <= MEMORY_SIZE {
            self.memory.write_u8(addr, data)
        } else if VGA_START <= addr && addr <= VGA_END {
            self.display.write_u8(addr & 0xfff, data);
            Ok(())
        } else if addr == SERIAL_ADDR {
            self.serial.write_u8(0, data)
        } else {
            Err(MemoryAccessError)
        }
    }

    fn write_u64(&mut self, addr: usize, data: u64) -> (r: Result<()>)
        ensures
            final(self)@ == bus_write_u64(old(self)@, addr, data).0,
            r is Ok <==> bus_write_u64(old(self)@, addr, data).1,
    {
        if addr <= MEMORY_SIZE {
            let r = self.memory.write_u64(addr, data);
            proof {
                assert(memory_writer() =~= (|s: Seq<u8>, a: usize, d: u8|
                    <Memory as MemoryAccess>::write_spec(s, a, d)));
            }
            r
        } else if VGA_START <= addr && addr <= VGA_END {
            self.display.write_u16(addr & 0xfff, (#[verifier::truncate] (data as u16)));
            Ok(())
        } else if addr == SERIAL_ADDR {
            self.serial.write_u8(0, (#[verifier::truncate] (data as u8)))
        } else {
            Err(MemoryAccessError)
        }
    }
}

impl Interconnect {
    /// A bus with zeroed RAM and the given serial port and screen.
    pub fn new(serial: Uart16550, display: VgaTextBuffer) -> (bus: Interconnect)
        ensures
            bus@ == (BusView {
                memory: Seq::new(MEMORY_SIZE as nat, |i: int| 0u8),
                serial: serial@,
                display: display@,
            }),
    {
        Interconnect { memory: Memory::new(MEMORY_SIZE), serial, display }
    }

    /// Copies `program` into RAM at `start`.
    pub fn init_memory(&mut self, program: &Vec<u8>, start: usize)
        requires
            start + program@.len() <= MEMORY_SIZE,
            old(self)@.memory.len() == MEMORY_SIZE,
        ensures
            final(self)@ == (BusView {
                memory: old(self)@.memory.subrange(0, start as int) + program@
                    + old(self)@.memory.subrange(start + program@.len(), MEMORY_SIZE as int),
                ..old(self)@
            }),
    {
        let data = program.clone();
        assert(data@ =~= program@);
        self.memory.fill_ram(data, start);
    }

    /// The `MAX_INSTRUCTION_LENGTH` bytes from `rip` on, from which the next
    /// instruction is decoded; an error when one of them cannot be read.
    pub fn fetch_inst_candidate(&self, rip: u64) -> (r: Result<Vec<u8>>)
        ensures
            ({
                let ok = rip + MAX_INSTRUCTION_LENGTH <= usize::MAX + 1 && readable(
                    |a: usize| Self::read_spec(self@, a),
                    rip as usize,
                    MAX_INSTRUCTION_LENGTH as nat,
                );
                &&& ok ==> (r matches Ok(v) && v@ == read_bytes(
                    |a: usize| Self::read_spec(self@, a),
                    rip as usize,
                    MAX_INSTRUCTION_LENGTH as nat,
                ))
                &&& !ok ==> r is Err
            }),
    {
        if rip > (usize::MAX - (MAX_INSTRUCTION_LENGTH - 1)) as u64 {
            return Err(MemoryAccessError);
        }
        let start = rip as usize;
        let mut bytes: Vec<u8> = Vec::new();
        let mut x: usize = 0;
        while x < MAX_INSTRUCTION_LENGTH
            invariant
                start == rip,
                start + MAX_INSTRUCTION_LENGTH - 1 <= usize::MAX,
                x <= MAX_INSTRUCTION_LENGTH,
                bytes@ == read_bytes(|a: usize| Self::read_spec(self@, a), start, x as nat),
                readable(|a: usize| Self::read_spec(self@, a), start, x as nat),
            decreases MAX_INSTRUCTION_LENGTH - x,
        {
            match self.read_u8(start + x) {
                Ok(b) => {
                    bytes.push(b);
                    x = x + 1;
                    assert(bytes@ =~= read_bytes(
                        |a: usize| Self::read_spec(self@, a),
                        start,
                        x as nat,
                    ));
                },
                Err(e) => {
                    assert(!((|a: usize| Self::read_spec(self@, a))((start + x) as usize) is Some));
                    return Err(e);
                },
            }
        }
        Ok(bytes)
    }

    /// The quadword at `addr`; an error when the address is out of range
    /// or one of its bytes cannot be read.
    pub fn read_quad(&self, addr: u64) -> (r: Result<u64>)
        ensures
            match bus_read_u64(self@, addr) {
                Some(v) => r == Ok::<u64, MemoryAccessError>(v),
                None => r is Err,
            },
    {
        if addr > (usize::MAX - 7) as u64 {
            return Err(MemoryAccessError);
        }
        let r = self.read_u64(addr as usize);
        proof {
            assert(bus_reader(self@) =~= (|a: usize| Self::read_spec(self@, a)));
        }
        r
    }

    /// Hands out the bytes that the serial port transmitted so far and
    /// empties its log.
    pub fn take_serial_output(&mut self) -> (out: Vec<u8>)
        ensures
            out@ == old(self)@.serial,
            final(self)@ == (BusView { serial: Seq::<u8>::empty(), ..old(self)@ }),
    {
        self.serial.take_output()
    }

    /// The screen.
    pub fn display(&self) -> (d: &VgaTextBuffer)
        ensures
            d@ == self@.display,
    {
        &self.display
    }
}

/// What a quadword write to RAM leaves on the bus is read back: the write
/// succeeds, keeps the size of the RAM, and a quadword read at the same
/// address gives the data.
pub proof fn lemma_bus_read_after_write(s: BusView, addr: usize, data: u64)
    requires
        s.memory.len() == MEMORY_SIZE,
        addr + 8 <= MEMORY_SIZE,
    ensures
        bus_write_u64(s, addr, data).1,
        bus_write_u64(s, addr, data).0.memory.len() == MEMORY_SIZE,
        bus_read_u64(bus_write_u64(s, addr, data).0, addr as u64) == Some(data),
{
    lemma_write_bytes_to_ram(s.memory, addr, le_bytes(data, 8));
    let s2 = bus_write_u64(s, addr, data).0;
    let m2 = s2.memory;
    assert(m2 == s.memory.subrange(0, addr as int) + le_bytes(data, 8) + s.memory.subrange(
        addr + 8,
        MEMORY_SIZE as int,
    ));
    assert(m2.len() == MEMORY_SIZE);
    assert forall|i: int| 0 <= i < 8 implies (#[trigger] bus_reader(s2)((addr + i) as usize)) == Some(
        m2[addr + i],
    ) by {}
    assert(read_bytes(bus_reader(s2), addr, 8) =~= le_bytes(data, 8));
    lemma_le_u64_roundtrip(data);
}

/// A quadword write to RAM leaves the rest of the bus as it was: the bytes
/// of RAM outside `addr..addr + 8`, the serial port and the screen.
pub proof fn lemma_bus_write_frame(s: BusView, addr: usize, data: u64, other: int)
    requires
        s.memory.len() == MEMORY_SIZE,
        addr + 8 <= MEMORY_SIZE,
        0 <= other < MEMORY_SIZE,
        other < addr || addr + 8 <= other,
    ensures
        bus_write_u64(s, addr, data).0.memory[other] == s.memory[other],
        bus_write_u64(s, addr, data).0.serial == s.serial,
        bus_write_u64(s, addr, data).0.display == s.display,
{
    lemma_write_bytes_to_ram(s.memory, addr, le_bytes(data, 8));
}

/// Byte writes to the bus never change the size of the RAM.
pub proof fn lemma_bus_writes_keep_ram_size(s: BusView, addr: usize, bytes: Seq<u8>)
    ensures
        write_bytes(bus_writer(), s, addr, bytes).0.memory.len() == s.memory.len(),
    decreases bytes.len(),
{
    if bytes.len() > 0 {
        if let Some(s2) = bus_writer()(s, addr, bytes[0]) {
            lemma_bus_writes_keep_ram_size(s2, (addr + 1) as usize, bytes.drop_first());
        }
    }
}

/// A quadword write to the bus never changes the size of the RAM.
pub proof fn lemma_bus_write_u64_keeps_ram_size(s: BusView, addr: usize, data: u64)
    ensures
        bus_write_u64(s, addr, data).0.memory.len() == s.memory.len(),
{
    lemma_ram_writes_keep_size(s.memory, addr, le_bytes(data, 8));
}

/// A quadword written to the VGA text memory at the offset of the cell at
/// `row`, `col` (two bytes per cell, row by row) succeeds and puts the
/// character word in its low sixteen bits in that cell; every other cell,
/// the RAM and the serial port keep what they held.
pub proof fn lemma_vga_quadword_write(s: BusView, row: int, col: int, data: u64, other: int)
    requires
        s.display.len() == ROW * COL,
        0 <= row < ROW,
        0 <= col < COL,
        0 <= other < ROW * COL,
        other != row * COL + col,
    ensures
        ({
            let addr = (VGA_START + 2 * (row * COL + col)) as usize;
            let after = bus_write_u64(s, addr, data);
            &&& after.1
            &&& after.0.display.len() == ROW * COL
            &&& after.0.display[row * COL + col] == screen_char_of(data as u16)
            &&& after.0.display[other] == s.display[other]
            &&& after.0.memory == s.memory
            &&& after.0.serial == s.serial
        }),
{
    let x: usize = (2 * (row * COL + col)) as usize;
    assert(row * COL + col < 2000) by (nonlinear_arith)
        requires
            0 <= row < ROW,
            0 <= col < COL,
    ;
    let a: usize = (VGA_START + x) as usize;
    assert(a & 0xfffusize == x) by (bit_vector)
        requires
            x < 4096usize,
            a == 0xb8000usize + x,
    ;
    lemma_vga_write_then_read(s.display, row, col, data as u16, other);
}

/// A quadword written to the serial port succeeds and transmits its low
/// byte, leaving the RAM and the screen alone; a write outside RAM, the
/// VGA text memory and the serial port fails and changes nothing.
pub proof fn lemma_serial_and_unmapped_writes(s: BusView, addr: usize, data: u64)
    ensures
        addr == SERIAL_ADDR ==> bus_write_u64(s, addr, data) == (
            BusView { serial: s.serial.push((data % 256) as u8), ..s },
            true,
        ),
        addr > MEMORY_SIZE && !(VGA_START <= addr <= VGA_END) && addr != SERIAL_ADDR ==> bus_write_u64(
            s,
            addr,
            data,
        ) == (s, false),
{
    assert((data as u8) as int == data % 256) by (bit_vector);
}

/// A quadword written to RAM is stored little-endian: the byte at
/// `addr + i` is `data / 256^i` modulo 256.
pub proof fn lemma_ram_quadword_bytes(s: BusView, addr: usize, data: u64, i: int)
    requires
        s.memory.len() == MEMORY_SIZE,
        addr + 8 <= MEMORY_SIZE,
        0 <= i < 8,
    ensures
        bus_write_u64(s, addr, data).0.memory[addr + i] == (data as int / pow256(i)) % 256,
{
    lemma_write_bytes_to_ram(s.memory, addr, le_bytes(data, 8));
    lemma_le_bytes_order(data);
    assert(bus_write_u64(s, addr, data).0.memory[addr + i] == le_bytes(data, 8)[i]);
    reveal_with_fuel(pow256, 8);
}

/// `256^i`.
pub open spec fn pow256(i: int) -> int
    decreases i,
{
    if i <= 0 {
        1
    } else {
        256 * pow256(i - 1)
    }
}

/// Byte writes through the bus to addresses inside RAM store the bytes
/// there in order and change nothing else.
pub proof fn lemma_bus_bytes_to_ram(s: BusView, addr: usize, bytes: Seq<u8>)
    requires
        s.memory.len() == MEMORY_SIZE,
        addr + bytes.len() <= MEMORY_SIZE,
    ensures
        write_bytes(bus_writer(), s, addr, bytes) == (
            BusView {
                memory: s.memory.subrange(0, addr as int) + bytes + s.memory.subrange(
                    addr + bytes.len(),
                    MEMORY_SIZE as int,
                ),
                ..s
            },
            true,
        ),
    decreases bytes.len(),
{
    if bytes.len() == 0 {
        assert(s.memory.subrange(0, addr as int) + bytes + s.memory.subrange(addr as int, MEMORY_SIZE as int)
            =~= s.memory);
    } else {
        let s2 = BusView { memory: s.memory.update(addr as int, bytes[0]), ..s };
        assert(bus_writer()(s, addr, bytes[0]) == Some(s2));
        lemma_bus_bytes_to_ram(s2, (addr + 1) as usize, bytes.drop_first());
        assert(s2.memory.subrange(0, addr + 1) + bytes.drop_first() + s2.memory.subrange(
            addr + 1 + bytes.drop_first().len(),
            MEMORY_SIZE as int,
        ) =~= s.memory.subrange(0, addr as int) + bytes + s.memory.subrange(
            addr + bytes.len(),
            MEMORY_SIZE as int,
        ));
    }
}

} // verus!
