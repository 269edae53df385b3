//! Random-access memory of the emulated machine.

use crate::bits::{
    byte_of, le_bytes, le_u16, le_u32, le_u64, lemma_le_u16_roundtrip, lemma_le_u32_roundtrip,
    lemma_le_u64_roundtrip, read_le_u64,
};
use crate::peripherals::memory_access::{
    read_bytes, readable, write_bytes, MemoryAccess, MemoryAccessError, Result,
};
use vstd::slice::slice_subrange;
use vstd::prelude::*;

verus! {

/// A byte-addressed RAM.
pub struct Memory {
    ram: Vec<u8>,
}

impl View for Memory {
    type V = Seq<u8>;

    closed spec fn view(&self) -> Seq<u8> {
        self.ram@
    }
}

impl Memory {
    /// A RAM of `size` bytes, all zero.
    pub fn new(size: usize) -> (m: Memory)
        ensures
            m@ == Seq::new(size as nat, |i: int| 0u8),
    {
        let ram = vec![0u8; size];
        let m = Memory { ram };
        assert(m@ =~= Seq::new(size as nat, |i: int| 0u8));
        m
    }

    /// The size of the RAM in bytes.
    pub fn size(&self) -> (n: usize)
        ensures
            n == self@.len(),
    {
        self.ram.len()
    }

    /// Copies `data` into the RAM starting at `start`.
    pub fn fill_ram(&mut self, data: Vec<u8>, start: usize)
        requires
            start + data@.len() <= old(self)@.len(),
        ensures
            final(self)@ == old(self)@.subrange(0, start as int) + data@ + old(self)@.subrange(
                start + data@.len(),
                old(self)@.len() as int,
            ),
    {
        let n = data.len();
        let total = self.ram.len();
        let ghost orig = self.ram@;
        for pos in 0..n
            invariant
                n == data@.len(),
                total == orig.len(),
                start + n <= orig.len(),
                self.ram@.len() == orig.len(),
                forall|i: int| 0 <= i < start ==> self.ram@[i] == orig[i],
                forall|i: int| start <= i < start + pos ==> self.ram@[i] == data@[i - start],
                forall|i: int| start + pos <= i < orig.len() ==> self.ram@[i] == orig[i],
        {
            self.ram[start + pos] = data[pos];
        }
        assert(self@ =~= orig.subrange(0, start as int) + data@ + orig.subrange(
            start + data@.len(),
            orig.len() as int,
        ));
    }

    /// The byte at `addr`.
    pub fn read8(&self, addr: usize) -> (b: u8)
        requires
            addr < self@.len(),
        ensures
            b == self@[addr as int],
    {
        self.ram[addr]
    }

    /// The eight bytes at `addr..addr + 8` read as a little-endian integer.
    pub fn read64(&self, addr: usize) -> (v: u64)
        requires
            addr + 8 <= self@.len(),
        ensures
            v == le_u64(self@.subrange(addr as int, addr + 8)),
    {
        let _total = self.ram.len();
        let bytes = slice_subrange(self.ram.as_slice(), addr, addr + 8);
        read_le_u64(bytes)
    }

    /// Stores `data` at `addr..addr + 8` in little-endian byte order.
    pub fn write64(&mut self, addr: usize, data: u64)
        requires
            addr + 8 <= old(self)@.len(),
        ensures
            final(self)@ == old(self)@.subrange(0, addr as int) + le_bytes(data, 8) + old(
                self,
            )@.subrange(addr + 8, old(self)@.len() as int),
    {
        let total = self.ram.len();
        let ghost orig = self.ram@;
        for pos in 0..8usize
            invariant
                total == orig.len(),
                addr + 8 <= orig.len(),
                self.ram@.len() == orig.len(),
                forall|i: int| 0 <= i < addr ==> self.ram@[i] == orig[i],
                forall|i: int|
                    addr <= i < addr + pos ==> self.ram@[i] == byte_of(data, (i - addr) as nat),
                forall|i: int| addr + pos <= i < orig.len() ==> self.ram@[i] == orig[i],
        {
            let byte = (#[verifier::truncate] (((data >> (8 * pos as u64)) & 0xff) as u8));
            self.ram[addr + pos] = byte;
        }
        assert(self@ =~= orig.subrange(0, addr as int) + le_bytes(data, 8) + orig.subrange(
            addr + 8,
            orig.len() as int,
        ));
    }
}

impl MemoryAccess for Memory {
    /// Every address inside the RAM can be read.
    open spec fn read_spec(state: Seq<u8>, addr: usize) -> Option<u8> {
        if addr < state.len() {
            Some(state[addr as int])
        } else {
            None
        }
    }

    /// Every address inside the RAM can be written.
    open spec fn write_spec(state: Seq<u8>, addr: usize, data: u8) -> Option<Seq<u8>> {
        if addr < state.len() {
            Some(state.update(addr as int, data))
        } else {
            None
        }
    }

    fn read_u8(&self, addr: usize) -> (r: Result<u8>) {
        if addr < self.ram.len() {
            Ok(self.ram[addr])
        } else {
            Err(MemoryAccessError)
        }
    }

    fn write_u8(&mut self, addr: usize, data: u8) -> (r: Result<()>) {
        if addr < self.ram.len() {
            self.ram[addr] = data;
            Ok(())
        } else {
            Err(MemoryAccessError)
        }
    }
}

/// A value written with `write64` is read back by `read64` at the same address.
pub proof fn lemma_read64_after_write64(before: Seq<u8>, after: Seq<u8>, addr: int, data: u64)
    requires
        0 <= addr,
        addr + 8 <= before.len(),
        after == before.subrange(0, addr) + le_bytes(data, 8) + before.subrange(
            addr + 8,
            before.len() as int,
        ),
    ensures
        le_u64(after.subrange(addr, addr + 8)) == data,
{
    assert(after.subrange(addr, addr + 8) =~= le_bytes(data, 8));
    lemma_le_u64_roundtrip(data);
}

/// `write_spec` of the RAM, as a function.
pub open spec fn memory_writer() -> spec_fn(Seq<u8>, usize, u8) -> Option<Seq<u8>> {
    |s: Seq<u8>, a: usize, d: u8| <Memory as MemoryAccess>::write_spec(s, a, d)
}

/// `read_spec` of the RAM holding `m`, as a function of the address.
pub open spec fn memory_reader(m: Seq<u8>) -> spec_fn(usize) -> Option<u8> {
    |a: usize| <Memory as MemoryAccess>::read_spec(m, a)
}

/// Writing bytes to RAM through `write_spec` one by one replaces the RAM
/// bytes at `addr..addr + bytes.len()` and succeeds.
pub proof fn lemma_write_bytes_to_ram(m: Seq<u8>, addr: usize, bytes: Seq<u8>)
    requires
        addr + bytes.len() <= m.len(),
        addr + bytes.len() <= usize::MAX,
    ensures
        write_bytes(memory_writer(), m, addr, bytes) == (
            m.subrange(0, addr as int) + bytes + m.subrange(addr + bytes.len(), m.len() as int),
            true,
        ),
    decreases bytes.len(),
{
    if bytes.len() == 0 {
        assert(m.subrange(0, addr as int) + bytes + m.subrange(addr as int, m.len() as int) =~= m);
    } else {
        let m2 = m.update(addr as int, bytes[0]);
        assert(memory_writer()(m, addr, bytes[0]) == Some(m2));
        lemma_write_bytes_to_ram(m2, (addr + 1) as usize, bytes.drop_first());
        assert(m2.subrange(0, addr + 1) + bytes.drop_first() + m2.subrange(
            addr + 1 + bytes.drop_first().len(),
            m2.len() as int,
        ) =~= m.subrange(0, addr as int) + bytes + m.subrange(addr + bytes.len(), m.len() as int));
    }
}

/// What the little-endian writes of `MemoryAccess` leave in RAM is read
/// back by the reads of the same width: after writing the low `n` bytes of
/// `data` (`n` is 2, 4 or 8) at `addr`, the `n` bytes there can be read and
/// make up the low `n` bytes of `data` again.
pub proof fn lemma_ram_read_after_write(m: Seq<u8>, addr: usize, data: u64, n: nat)
    requires
        n == 2 || n == 4 || n == 8,
        addr + n <= m.len(),
        m.len() <= usize::MAX,
    ensures
        write_bytes(memory_writer(), m, addr, le_bytes(data, n)).1,
        ({
            let m2 = write_bytes(memory_writer(), m, addr, le_bytes(data, n)).0;
            &&& m2.len() == m.len()
            &&& readable(memory_reader(m2), addr, n)
            &&& read_bytes(memory_reader(m2), addr, n) == le_bytes(data, n)
        }),
        n == 2 ==> le_u16(le_bytes(data, 2)) == data as u16,
        n == 4 ==> le_u32(le_bytes(data, 4)) == data as u32,
        n == 8 ==> le_u64(le_bytes(data, 8)) == data,
{
    lemma_write_bytes_to_ram(m, addr, le_bytes(data, n));
    let m2 = write_bytes(memory_writer(), m, addr, le_bytes(data, n)).0;
    assert forall|i: int| 0 <= i < n implies (#[trigger] memory_reader(m2)((addr + i) as usize)) == Some(
        le_bytes(data, n)[i],
    ) by {}
    assert(read_bytes(memory_reader(m2), addr, n) =~= le_bytes(data, n));
    lemma_le_u16_roundtrip(data);
    lemma_le_u32_roundtrip(data);
    lemma_le_u64_roundtrip(data);
}

/// Byte writes to RAM never change its size, whether they succeed or not.
pub proof fn lemma_ram_writes_keep_size(m: Seq<u8>, addr: usize, bytes: Seq<u8>)
    ensures
        write_bytes(memory_writer(), m, addr, bytes).0.len() == m.len(),
    decreases bytes.len(),
{
    if bytes.len() > 0 {
        if let Some(m2) = memory_writer()(m, addr, bytes[0]) {
            lemma_ram_writes_keep_size(m2, (addr + 1) as usize, bytes.drop_first());
        }
    }
}

/// A RAM reads back through `read8` what was last stored at each address:
/// zero after `new`, the data after `fill_ram` and the little-endian bytes
/// after `write64` at the addresses they cover, and the old byte elsewhere.
pub proof fn lemma_ram_read_back(m: Seq<u8>, n: nat, data: Seq<u8>, start: int, addr: int, value: u64, i: int)
    requires
        0 <= start,
        start + data.len() <= m.len(),
        0 <= addr,
        addr + 8 <= m.len(),
        0 <= i < m.len(),
    ensures
        0 <= i < n ==> Seq::new(n, |j: int| 0u8)[i] == 0,
        (m.subrange(0, start) + data + m.subrange(start + data.len(), m.len() as int))[i] == if start
            <= i < start + data.len() {
            data[i - start]
        } else {
            m[i]
        },
        (m.subrange(0, addr) + le_bytes(value, 8) + m.subrange(addr + 8, m.len() as int))[i] == if addr
            <= i < addr + 8 {
            byte_of(value, (i - addr) as nat)
        } else {
            m[i]
        },
{
}

} // verus!
