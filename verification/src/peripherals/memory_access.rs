//! Byte-addressed access to a device on the bus, with the wider accesses
//! built from byte accesses in little-endian order.

use crate::bits::{le_bytes, le_u16, le_u32, le_u64, read_le_u16, read_le_u32, read_le_u64};
use vstd::prelude::*;

verus! {

/// The error of an access that the device refuses.
#[derive(Debug)]
pub struct MemoryAccessError;

/// The result of a memory access.
pub type Result<T> = core::result::Result<T, MemoryAccessError>;

/// `n` bytes from `addr` on can all be read through `rd`.
pub open spec fn readable(rd: spec_fn(usize) -> Option<u8>, addr: usize, n: nat) -> bool {
    forall|i: int| 0 <= i < n ==> (#[trigger] rd((addr + i) as usize)) is Some
}

/// The `n` bytes that `rd` gives from `addr` on.
pub open spec fn read_bytes(rd: spec_fn(usize) -> Option<u8>, addr: usize, n: nat) -> Seq<u8> {
    Seq::new(n, |i: int| rd((addr + i) as usize).unwrap())
}

/// Writes `bytes` through `wr` one by one from `addr` on, starting from the
/// device `m` and stopping at the first byte that the device refuses: the
/// device afterwards, and whether every byte was written.
pub open spec fn write_bytes<S>(
    wr: spec_fn(S, usize, u8) -> Option<S>,
    m: S,
    addr: usize,
    bytes: Seq<u8>,
) -> (S, bool)
    decreases bytes.len(),
{
    if bytes.len() == 0 {
        (m, true)
    } else {
        match wr(m, addr, bytes[0]) {
            Some(m2) => write_bytes(wr, m2, (addr + 1) as usize, bytes.drop_first()),
            None => (m, false),
        }
    }
}

/// The outcome of an `n`-byte read through `rd`: `v` when all the bytes can
/// be read, an error otherwise.
pub open spec fn read_outcome<T>(
    rd: spec_fn(usize) -> Option<u8>,
    addr: usize,
    n: nat,
    v: T,
    r: Result<T>,
) -> bool {
    if readable(rd, addr, n) {
        r == Ok::<T, MemoryAccessError>(v)
    } else {
        r is Err
    }
}

/// A device that can be read and written byte by byte.
pub trait MemoryAccess: View + Sized {
    /// The byte that `read_u8` returns at `addr` on a device in state `state`,
    /// or `None` when the read fails.
    spec fn read_spec(state: Self::V, addr: usize) -> Option<u8>;

    /// The state of the device after `write_u8(addr, data)` on a device in
    /// state `state`, or `None` when the write fails.
    spec fn write_spec(state: Self::V, addr: usize, data: u8) -> Option<Self::V>;

    /// Reads the byte at `addr`.
    fn read_u8(&self, addr: usize) -> (r: Result<u8>)
        ensures
            match Self::read_spec(self@, addr) {
                Some(b) => r == Ok::<u8, MemoryAccessError>(b),
                None => r is Err,
            },
    ;

    /// Writes `data` to `addr`; a refused write leaves the device unchanged.
    fn write_u8(&mut self, addr: usize, data: u8) -> (r: Result<()>)
        ensures
            match Self::write_spec(old(self)@, addr, data) {
                Some(s) => r is Ok && final(self)@ == s,
                None => r is Err && final(self)@ == old(self)@,
            },
    ;

    /// Reads the little-endian `u16` at `addr..addr + 2`.
    fn read_u16(&self, addr: usize) -> (r: Result<u16>)
        requires
            addr + 1 <= usize::MAX,
        ensures
            read_outcome((|a: usize| Self::read_spec(self@, a)), addr, 2, le_u16(read_bytes((|a: usize| Self::read_spec(self@, a)), addr, 2)), r),
    {
        let b0 = self.read_u8(addr)?;
        let b1 = self.read_u8(addr + 1)?;
        let bytes = [b0, b1];
        proof {
            assert(bytes@ =~= read_bytes((|a: usize| Self::read_spec(self@, a)), addr, 2));
        }
        Ok(read_le_u16(&bytes))
    }

    /// Reads the little-endian `u32` at `addr..addr + 4`.
    fn read_u32(&self, addr: usize) -> (r: Result<u32>)
        requires
            addr + 3 <= usize::MAX,
        ensures
            read_outcome((|a: usize| Self::read_spec(self@, a)), addr, 4, le_u32(read_bytes((|a: usize| Self::read_spec(self@, a)), addr, 4)), r),
    {
        let mut bytes: Vec<u8> = Vec::new();
        let mut x: usize = 0;
        while x < 4
            invariant
                addr + 3 <= usize::MAX,
                x <= 4,
                bytes@ == read_bytes((|a: usize| Self::read_spec(self@, a)), addr, x as nat),
                readable((|a: usize| Self::read_spec(self@, a)), addr, x as nat),
            decreases 4 - x,
        {
            match self.read_u8(addr + x) {
                Ok(b) => {
                    bytes.push(b);
                    x = x + 1;
                    assert(bytes@ =~= read_bytes((|a: usize| Self::read_spec(self@, a)), addr, x as nat));
                },
                Err(e) => {
                    assert(!((|a: usize| Self::read_spec(self@, a))((addr + x) as usize) is Some));
                    return Err(e);
                },
            }
        }
        Ok(read_le_u32(bytes.as_slice()))
    }

    /// Reads the little-endian `u64` at `addr..addr + 8`.
    fn read_u64(&self, addr: usize) -> (r: Result<u64>)
        requires
            addr + 7 <= usize::MAX,
        ensures
            read_outcome((|a: usize| Self::read_spec(self@, a)), addr, 8, le_u64(read_bytes((|a: usize| Self::read_spec(self@, a)), addr, 8)), r),
    {
        let mut bytes: Vec<u8> = Vec::new();
        let mut x: usize = 0;
        while x < 8
            invariant
                addr + 7 <= usize::MAX,
                x <= 8,
                bytes@ == read_bytes((|a: usize| Self::read_spec(self@, a)), addr, x as nat),
                readable((|a: usize| Self::read_spec(self@, a)), addr, x as nat),
            decreases 8 - x,
        {
            match self.read_u8(addr + x) {
                Ok(b) => {
                    bytes.push(b);
                    x = x + 1;
                    assert(bytes@ =~= read_bytes((|a: usize| Self::read_spec(self@, a)), addr, x as nat));
                },
                Err(e) => {
                    assert(!((|a: usize| Self::read_spec(self@, a))((addr + x) as usize) is Some));
                    return Err(e);
                },
            }
        }
        Ok(read_le_u64(bytes.as_slice()))
    }

    /// Writes `data` to `addr..addr + 2` in little-endian order.
    fn write_u16(&mut self, addr: usize, data: u16) -> (r: Result<()>)
        requires
            addr + 1 <= usize::MAX,
        ensures
            final(self)@ == write_bytes((|s: Self::V, a: usize, d: u8| Self::write_spec(s, a, d)), old(self)@, addr, le_bytes(data as u64, 2)).0,
            r is Ok <==> write_bytes((|s: Self::V, a: usize, d: u8| Self::write_spec(s, a, d)), old(self)@, addr, le_bytes(data as u64, 2)).1,
    {
        let value: u64 = data as u64;
        let ghost wr = |s: Self::V, a: usize, d: u8| Self::write_spec(s, a, d);
        assert(le_bytes(value, 2).skip(0) =~= le_bytes(value, 2));
        let mut x: usize = 0;
        while x < 2
            invariant
                addr + 1 <= usize::MAX,
                x <= 2,
                value == data as u64,
                wr == (|s: Self::V, a: usize, d: u8| Self::write_spec(s, a, d)),
                write_bytes(wr, old(self)@, addr, le_bytes(value, 2)) == write_bytes(
                    wr,
                    self@,
                    (addr + x) as usize,
                    le_bytes(value, 2).skip(x as int),
                ),
            decreases 2 - x,
        {
            let ghost rest = le_bytes(value, 2).skip(x as int);
            let byte = (#[verifier::truncate] (((value >> (8 * x as u64)) & 0xff) as u8));
            assert(rest[0] == byte);
            let ghost before = self@;
            match self.write_u8(addr + x, byte) {
                Ok(_) => {
                    assert(rest.drop_first() =~= le_bytes(value, 2).skip(x + 1));
                    x = x + 1;
                },
                Err(e) => {
                    assert(wr(before, (addr + x) as usize, byte) is None);
                    assert(write_bytes(wr, before, (addr + x) as usize, rest) == (before, false));
                    return Err(e);
                },
            }
        }
        assert(le_bytes(value, 2).skip(2) =~= Seq::<u8>::empty());
        Ok(())
    }

    /// Writes `data` to `addr..addr + 4` in little-endian order.
    fn write_u32(&mut self, addr: usize, data: u32) -> (r: Result<()>)
        requires
            addr + 3 <= usize::MAX,
        ensures
            final(self)@ == write_bytes((|s: Self::V, a: usize, d: u8| Self::write_spec(s, a, d)), old(self)@, addr, le_bytes(data as u64, 4)).0,
            r is Ok <==> write_bytes((|s: Self::V, a: usize, d: u8| Self::write_spec(s, a, d)), old(self)@, addr, le_bytes(data as u64, 4)).1,
    {
        let value: u64 = data as u64;
        let ghost wr = |s: Self::V, a: usize, d: u8| Self::write_spec(s, a, d);
        assert(le_bytes(value, 4).skip(0) =~= le_bytes(value, 4));
        let mut x: usize = 0;
        while x < 4
            invariant
                addr + 3 <= usize::MAX,
                x <= 4,
                value == data as u64,
                wr == (|s: Self::V, a: usize, d: u8| Self::write_spec(s, a, d)),
                write_bytes(wr, old(self)@, addr, le_bytes(value, 4)) == write_bytes(
                    wr,
                    self@,
                    (addr + x) as usize,
                    le_bytes(value, 4).skip(x as int),
                ),
            decreases 4 - x,
        {
            let ghost rest = le_bytes(value, 4).skip(x as int);
            let byte = (#[verifier::truncate] (((value >> (8 * x as u64)) & 0xff) as u8));
            assert(rest[0] == byte);
            let ghost before = self@;
            match self.write_u8(addr + x, byte) {
                Ok(_) => {
                    assert(rest.drop_first() =~= le_bytes(value, 4).skip(x + 1));
                    x = x + 1;
                },
                Err(e) => {
                    assert(wr(before, (addr + x) as usize, byte) is None);
                    assert(write_bytes(wr, before, (addr + x) as usize, rest) == (before, false));
                    return Err(e);
                },
            }
        }
        assert(le_bytes(value, 4).skip(4) =~= Seq::<u8>::empty());
        Ok(())
    }

    /// Writes `data` to `addr..addr + 8`: by default byte by byte in
    /// little-endian order; a device may map a quadword write otherwise.
    fn write_u64(&mut self, addr: usize, data: u64) -> (r: Result<()>)
        requires
            addr + 7 <= usize::MAX,
        default_ensures
            final(self)@ == write_bytes((|s: Self::V, a: usize, d: u8| Self::write_spec(s, a, d)), old(self)@, addr, le_bytes(data, 8)).0,
            r is Ok <==> write_bytes((|s: Self::V, a: usize, d: u8| Self::write_spec(s, a, d)), old(self)@, addr, le_bytes(data, 8)).1,
    {
        let value: u64 = data;
        let ghost wr = |s: Self::V, a: usize, d: u8| Self::write_spec(s, a, d);
        assert(le_bytes(value, 8).skip(0) =~= le_bytes(value, 8));
        let mut x: usize = 0;
        while x < 8
            invariant
                addr + 7 <= usize::MAX,
                x <= 8,
                value == data,
                wr == (|s: Self::V, a: usize, d: u8| Self::write_spec(s, a, d)),
                write_bytes(wr, old(self)@, addr, le_bytes(value, 8)) == write_bytes(
                    wr,
                    self@,
                    (addr + x) as usize,
                    le_bytes(value, 8).skip(x as int),
                ),
            decreases 8 - x,
        {
            let ghost rest = le_bytes(value, 8).skip(x as int);
            let byte = (#[verifier::truncate] (((value >> (8 * x as u64)) & 0xff) as u8));
            assert(rest[0] == byte);
            let ghost before = self@;
            match self.write_u8(addr + x, byte) {
                Ok(_) => {
                    assert(rest.drop_first() =~= le_bytes(value, 8).skip(x + 1));
                    x = x + 1;
                },
                Err(e) => {
                    assert(wr(before, (addr + x) as usize, byte) is None);
                    assert(write_bytes(wr, before, (addr + x) as usize, rest) == (before, false));
                    return Err(e);
                },
            }
        }
        assert(le_bytes(value, 8).skip(8) =~= Seq::<u8>::empty());
        Ok(())
    }

}

} // verus!
