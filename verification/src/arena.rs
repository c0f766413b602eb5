//! The emulated flat memory standing in for the target process's
//! address space.
//!
//! An [`Arena`] owns a contiguous byte buffer addressed by the range
//! `[base, base + len)`. Every access is range-checked; an
//! out-of-range access is a recoverable [`Error::OutOfRange`], never
//! undefined behaviour. Scalars are stored little-endian, matching the
//! target's byte order.

use vstd::prelude::*;

use crate::error::Error;

verus! {

/// Range check over a raw memory view: `[addr, addr + len)` lies
/// within `[base, base + mem.len())`.
pub open spec fn mem_in_range(base: int, mem: Seq<u8>, addr: int, len: int) -> bool {
    base <= addr && addr + len <= base + mem.len()
}

/// The byte of a raw memory view at absolute address `addr`.
pub open spec fn mem_byte(base: int, mem: Seq<u8>, addr: int) -> u8 {
    mem[addr - base]
}

/// Little-endian 16-bit read from a raw memory view.
pub open spec fn mem_read_u16(base: int, mem: Seq<u8>, addr: int) -> u16 {
    (mem_byte(base, mem, addr) as u16) | ((mem_byte(base, mem, addr + 1) as u16) << 8)
}

/// Little-endian 32-bit read from a raw memory view.
pub open spec fn mem_read_u32(base: int, mem: Seq<u8>, addr: int) -> u32 {
    (mem_byte(base, mem, addr) as u32) | ((mem_byte(base, mem, addr + 1) as u32) << 8)
        | ((mem_byte(base, mem, addr + 2) as u32) << 16)
        | ((mem_byte(base, mem, addr + 3) as u32) << 24)
}

/// Little-endian 64-bit read from a raw memory view.
pub open spec fn mem_read_u64(base: int, mem: Seq<u8>, addr: int) -> u64 {
    (mem_byte(base, mem, addr) as u64) | ((mem_byte(base, mem, addr + 1) as u64) << 8)
        | ((mem_byte(base, mem, addr + 2) as u64) << 16)
        | ((mem_byte(base, mem, addr + 3) as u64) << 24)
        | ((mem_byte(base, mem, addr + 4) as u64) << 32)
        | ((mem_byte(base, mem, addr + 5) as u64) << 40)
        | ((mem_byte(base, mem, addr + 6) as u64) << 48)
        | ((mem_byte(base, mem, addr + 7) as u64) << 56)
}

/// The memory view after a little-endian 32-bit store.
pub open spec fn mem_write_u32(base: int, mem: Seq<u8>, addr: int, v: u32) -> Seq<u8> {
    mem.update(addr - base, (v & 0xFF) as u8).update(addr + 1 - base, ((v >> 8) & 0xFF) as u8)
        .update(addr + 2 - base, ((v >> 16) & 0xFF) as u8)
        .update(addr + 3 - base, ((v >> 24) & 0xFF) as u8)
}

/// The memory view after a little-endian 64-bit store.
pub open spec fn mem_write_u64(base: int, mem: Seq<u8>, addr: int, v: u64) -> Seq<u8> {
    mem.update(addr - base, (v & 0xFF) as u8).update(addr + 1 - base, ((v >> 8) & 0xFF) as u8)
        .update(addr + 2 - base, ((v >> 16) & 0xFF) as u8)
        .update(addr + 3 - base, ((v >> 24) & 0xFF) as u8)
        .update(addr + 4 - base, ((v >> 32) & 0xFF) as u8)
        .update(addr + 5 - base, ((v >> 40) & 0xFF) as u8)
        .update(addr + 6 - base, ((v >> 48) & 0xFF) as u8)
        .update(addr + 7 - base, ((v >> 56) & 0xFF) as u8)
}

/// The memory view after copying a byte string to `addr`.
pub open spec fn mem_write_bytes(base: int, mem: Seq<u8>, addr: int, bytes: Seq<u8>) -> Seq<u8> {
    Seq::new(
        mem.len(),
        |i: int|
            if addr - base <= i < addr - base + bytes.len() {
                bytes[i - (addr - base)]
            } else {
                mem[i]
            },
    )
}

/// A 32-bit little-endian store is read back as the stored value, and
/// no byte outside the four written ones changes.
pub proof fn lemma_write_read_u32(base: int, mem: Seq<u8>, addr: int, v: u32)
    requires
        mem_in_range(base, mem, addr, 4),
    ensures
        mem_read_u32(base, mem_write_u32(base, mem, addr, v), addr) == v,
        mem_write_u32(base, mem, addr, v).len() == mem.len(),
        forall|a: int|
            base <= a < base + mem.len() && !(addr <= a < addr + 4) ==> mem_byte(
                base,
                mem_write_u32(base, mem, addr, v),
                a,
            ) == mem_byte(base, mem, a),
{
    assert((((v & 0xFF) as u8) as u32) | (((((v >> 8) & 0xFF) as u8) as u32) << 8) | (((((v >> 16)
        & 0xFF) as u8) as u32) << 16) | (((((v >> 24) & 0xFF) as u8) as u32) << 24) == v)
        by (bit_vector);
}

/// A 64-bit little-endian store is read back as the stored value, and
/// no byte outside the eight written ones changes.
pub proof fn lemma_write_read_u64(base: int, mem: Seq<u8>, addr: int, v: u64)
    requires
        mem_in_range(base, mem, addr, 8),
    ensures
        mem_read_u64(base, mem_write_u64(base, mem, addr, v), addr) == v,
        mem_write_u64(base, mem, addr, v).len() == mem.len(),
        forall|a: int|
            base <= a < base + mem.len() && !(addr <= a < addr + 8) ==> mem_byte(
                base,
                mem_write_u64(base, mem, addr, v),
                a,
            ) == mem_byte(base, mem, a),
{
    assert((((v & 0xFF) as u8) as u64) | (((((v >> 8) & 0xFF) as u8) as u64) << 8) | (((((v >> 16)
        & 0xFF) as u8) as u64) << 16) | (((((v >> 24) & 0xFF) as u8) as u64) << 24) | (((((v >> 32)
        & 0xFF) as u8) as u64) << 32) | (((((v >> 40) & 0xFF) as u8) as u64) << 40) | (((((v >> 48)
        & 0xFF) as u8) as u64) << 48) | (((((v >> 56) & 0xFF) as u8) as u64) << 56) == v)
        by (bit_vector);
}

/// The 32-bit two's-complement reading of a scalar.
pub open spec fn u32_as_i32(b: u32) -> i32 {
    if b <= 0x7FFF_FFFF {
        b as i32
    } else {
        (b - 0x1_0000_0000) as i32
    }
}

/// The 32-bit two's-complement image of a signed scalar.
pub open spec fn i32_as_u32(v: i32) -> u32 {
    if v >= 0 {
        v as u32
    } else {
        (v + 0x1_0000_0000) as u32
    }
}

/// The two conversions invert each other.
pub proof fn lemma_i32_u32_round_trip(v: i32)
    ensures
        u32_as_i32(i32_as_u32(v)) == v,
{
}

/// Emulated flat memory. Addresses are absolute 64-bit values; the
/// addressable range is `[base, base + data.len())`.
pub struct Arena {
    /// The absolute address of the first byte.
    pub base: u64,
    /// The owned byte buffer.
    pub data: Vec<u8>,
}

impl Arena {
    /// The addressable range does not wrap around the 64-bit address
    /// space.
    pub open spec fn wf(&self) -> bool {
        self.base as int + self.data@.len() <= 0xFFFF_FFFF_FFFF_FFFFu64
    }

    /// Range check against this arena.
    pub open spec fn in_range(&self, addr: int, len: int) -> bool {
        mem_in_range(self.base as int, self.data@, addr, len)
    }

    /// The byte at absolute address `addr`.
    pub open spec fn byte(&self, addr: int) -> u8 {
        mem_byte(self.base as int, self.data@, addr)
    }

    /// Little-endian scalar reads over the current contents.
    pub open spec fn read_u32_spec(&self, addr: int) -> u32 {
        mem_read_u32(self.base as int, self.data@, addr)
    }

    pub open spec fn read_u64_spec(&self, addr: int) -> u64 {
        mem_read_u64(self.base as int, self.data@, addr)
    }

    /// Create an arena of `size` zeroed bytes based at `base`.
    pub fn new(base: u64, size: usize) -> (r: Arena)
        requires
            base as int + size as int <= 0xFFFF_FFFF_FFFF_FFFFu64,
        ensures
            r.wf(),
            r.base == base,
            r.data@.len() == size,
            forall|i: int| 0 <= i < size ==> r.data@[i] == 0u8,
    {
        let mut data: Vec<u8> = Vec::new();
        let mut i: usize = 0;
        while i < size
            invariant
                i <= size,
                data@.len() == i,
                forall|j: int| 0 <= j < i ==> data@[j] == 0u8,
            decreases size - i,
        {
            data.push(0u8);
            i = i + 1;
        }
        Arena { base, data }
    }

    /// Executable range check: does `[addr, addr + len)` lie within
    /// the addressable range?
    pub fn check_range(&self, addr: u64, len: u64) -> (r: bool)
        ensures
            r == self.in_range(addr as int, len as int),
    {
        if addr < self.base {
            return false;
        }
        let off = addr - self.base;
        let n = self.data.len() as u64;
        len <= n && off <= n - len
    }

    /// Read one byte.
    pub fn read_u8(&self, addr: u64) -> (r: Result<u8, Error>)
        ensures
            r is Ok <==> self.in_range(addr as int, 1),
            r is Ok ==> r->Ok_0 == self.byte(addr as int),
            r is Err ==> r->Err_0 == Error::OutOfRange,
    {
        if addr < self.base {
            return Err(Error::OutOfRange);
        }
        let off = addr - self.base;
        if off >= self.data.len() as u64 {
            return Err(Error::OutOfRange);
        }
        Ok(self.data[off as usize])
    }

    /// Write one byte.
    pub fn write_u8(&mut self, addr: u64, v: u8) -> (r: Result<(), Error>)
        ensures
            final(self).base == old(self).base,
            r is Ok <==> old(self).in_range(addr as int, 1),
            r is Ok ==> final(self).data@ == old(self).data@.update(addr - old(self).base, v),
            r is Err ==> r->Err_0 == Error::OutOfRange && final(self).data@ == old(self).data@,
    {
        if addr < self.base {
            return Err(Error::OutOfRange);
        }
        let off = addr - self.base;
        if off >= self.data.len() as u64 {
            return Err(Error::OutOfRange);
        }
        self.data[off as usize] = v;
        Ok(())
    }

    /// Little-endian 32-bit read.
    pub fn read_u32(&self, addr: u64) -> (r: Result<u32, Error>)
        requires
            self.wf(),
        ensures
            r is Ok <==> self.in_range(addr as int, 4),
            r is Ok ==> r->Ok_0 == self.read_u32_spec(addr as int),
            r is Err ==> r->Err_0 == Error::OutOfRange,
    {
        if addr < self.base {
            return Err(Error::OutOfRange);
        }
        let off = addr - self.base;
        let len = self.data.len() as u64;
        if len < 4 || off > len - 4 {
            return Err(Error::OutOfRange);
        }
        let i = off as usize;
        let b0 = self.data[i];
        let b1 = self.data[i + 1];
        let b2 = self.data[i + 2];
        let b3 = self.data[i + 3];
        Ok((b0 as u32) | ((b1 as u32) << 8) | ((b2 as u32) << 16) | ((b3 as u32) << 24))
    }

    /// Little-endian 64-bit read.
    pub fn read_u64(&self, addr: u64) -> (r: Result<u64, Error>)
        requires
            self.wf(),
        ensures
            r is Ok <==> self.in_range(addr as int, 8),
            r is Ok ==> r->Ok_0 == self.read_u64_spec(addr as int),
            r is Err ==> r->Err_0 == Error::OutOfRange,
    {
        if addr < self.base {
            return Err(Error::OutOfRange);
        }
        let off = addr - self.base;
        let len = self.data.len() as u64;
        if len < 8 || off > len - 8 {
            return Err(Error::OutOfRange);
        }
        let i = off as usize;
        let b0 = self.data[i];
        let b1 = self.data[i + 1];
        let b2 = self.data[i + 2];
        let b3 = self.data[i + 3];
        let b4 = self.data[i + 4];
        let b5 = self.data[i + 5];
        let b6 = self.data[i + 6];
        let b7 = self.data[i + 7];
        Ok(
            (b0 as u64) | ((b1 as u64) << 8) | ((b2 as u64) << 16) | ((b3 as u64) << 24)
                | ((b4 as u64) << 32) | ((b5 as u64) << 40) | ((b6 as u64) << 48)
                | ((b7 as u64) << 56),
        )
    }

    /// Little-endian 32-bit write.
    pub fn write_u32(&mut self, addr: u64, v: u32) -> (r: Result<(), Error>)
        requires
            old(self).wf(),
        ensures
            final(self).base == old(self).base,
            final(self).wf(),
            r is Ok <==> old(self).in_range(addr as int, 4),
            r is Ok ==> final(self).data@ == mem_write_u32(
                old(self).base as int,
                old(self).data@,
                addr as int,
                v,
            ),
            r is Err ==> r->Err_0 == Error::OutOfRange && final(self).data@ == old(self).data@,
    {
        if addr < self.base {
            return Err(Error::OutOfRange);
        }
        let off = addr - self.base;
        let len = self.data.len() as u64;
        if len < 4 || off > len - 4 {
            return Err(Error::OutOfRange);
        }
        let i = off as usize;
        self.data[i] = (v & 0xFF) as u8;
        self.data[i + 1] = ((v >> 8) & 0xFF) as u8;
        self.data[i + 2] = ((v >> 16) & 0xFF) as u8;
        self.data[i + 3] = ((v >> 24) & 0xFF) as u8;
        Ok(())
    }

    /// Little-endian 64-bit write.
    pub fn write_u64(&mut self, addr: u64, v: u64) -> (r: Result<(), Error>)
        requires
            old(self).wf(),
        ensures
            final(self).base == old(self).base,
            final(self).wf(),
            r is Ok <==> old(self).in_range(addr as int, 8),
            r is Ok ==> final(self).data@ == mem_write_u64(
                old(self).base as int,
                old(self).data@,
                addr as int,
                v,
            ),
            r is Err ==> r->Err_0 == Error::OutOfRange && final(self).data@ == old(self).data@,
    {
        if addr < self.base {
            return Err(Error::OutOfRange);
        }
        let off = addr - self.base;
        let len = self.data.len() as u64;
        if len < 8 || off > len - 8 {
            return Err(Error::OutOfRange);
        }
        let i = off as usize;
        self.data[i] = (v & 0xFF) as u8;
        self.data[i + 1] = ((v >> 8) & 0xFF) as u8;
        self.data[i + 2] = ((v >> 16) & 0xFF) as u8;
        self.data[i + 3] = ((v >> 24) & 0xFF) as u8;
        self.data[i + 4] = ((v >> 32) & 0xFF) as u8;
        self.data[i + 5] = ((v >> 40) & 0xFF) as u8;
        self.data[i + 6] = ((v >> 48) & 0xFF) as u8;
        self.data[i + 7] = ((v >> 56) & 0xFF) as u8;
        Ok(())
    }

    /// Little-endian signed 32-bit read (two's complement).
    pub fn read_i32(&self, addr: u64) -> (r: Result<i32, Error>)
        requires
            self.wf(),
        ensures
            r is Ok <==> self.in_range(addr as int, 4),
            r is Ok ==> r->Ok_0 == u32_as_i32(self.read_u32_spec(addr as int)),
            r is Err ==> r->Err_0 == Error::OutOfRange,
    {
        match self.read_u32(addr) {
            Ok(b) => {
                proof {
                    assert(b > 0x7FFF_FFFF ==> b as int - 0x1_0000_0000 == (b as i32) as int)
                        by (bit_vector);
                }
                Ok(
                    #[verifier::truncate]
                    (b as i32),
                )
            },
            Err(e) => Err(e),
        }
    }

    /// Little-endian signed 32-bit write (two's complement).
    pub fn write_i32(&mut self, addr: u64, v: i32) -> (r: Result<(), Error>)
        requires
            old(self).wf(),
        ensures
            final(self).base == old(self).base,
            final(self).wf(),
            r is Ok <==> old(self).in_range(addr as int, 4),
            r is Ok ==> final(self).data@ == mem_write_u32(
                old(self).base as int,
                old(self).data@,
                addr as int,
                i32_as_u32(v),
            ),
            r is Err ==> r->Err_0 == Error::OutOfRange && final(self).data@ == old(self).data@,
    {
        proof {
            assert(v < 0 ==> v as int + 0x1_0000_0000 == (v as u32) as int) by (bit_vector);
        }
        self.write_u32(
            addr,
            #[verifier::truncate]
            (v as u32),
        )
    }

    /// Copy a byte slice into the arena at `addr`.
    pub fn write_bytes(&mut self, addr: u64, src: &[u8]) -> (r: Result<(), Error>)
        requires
            old(self).wf(),
        ensures
            final(self).base == old(self).base,
            final(self).wf(),
            r is Ok <==> old(self).in_range(addr as int, src@.len() as int),
            r is Ok ==> final(self).data@ == mem_write_bytes(
                old(self).base as int,
                old(self).data@,
                addr as int,
                src@,
            ),
            r is Err ==> r->Err_0 == Error::OutOfRange && final(self).data@ == old(self).data@,
    {
        if addr < self.base {
            return Err(Error::OutOfRange);
        }
        let off = addr - self.base;
        let len = self.data.len() as u64;
        let n = src.len();
        if n as u64 > len || off > len - n as u64 {
            return Err(Error::OutOfRange);
        }
        let start = off as usize;
        assert(start + n <= self.data@.len());
        let mut i: usize = 0;
        while i < n
            invariant
                i <= n,
                n == src@.len(),
                start + n <= usize::MAX,
                start as int == addr - self.base,
                addr >= self.base,
                self.base == old(self).base,
                self.data@.len() == old(self).data@.len(),
                start + n <= self.data@.len(),
                forall|j: int| 0 <= j < i ==> self.data@[start + j] == src@[j],
                forall|k: int|
                    0 <= k < self.data@.len() && !(start <= k < start + i) ==> self.data@[k] == old(
                        self,
                    ).data@[k],
            decreases n - i,
        {
            self.data[start + i] = src[i];
            i = i + 1;
        }
        proof {
            assert(self.data@ =~= mem_write_bytes(
                old(self).base as int,
                old(self).data@,
                addr as int,
                src@,
            ));
        }
        Ok(())
    }
}

} // verus!
