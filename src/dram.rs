//! A contiguous block of byte-addressable memory.
use std::ops::Range;
use vstd::prelude::*;

use crate::bytes::{byte_of, le_bytes, le_value, lemma_le_value_bound, lemma_pow256_mono, lemma_pow256_positive, lemma_pow256_values, pow256};
use crate::error::CPUError;
use crate::memory::{map_ok, Memory};

verus! {

/// The address of the last byte of an `n`-byte access at `offset`, wrapping
/// at 2^64.
pub open spec fn last_byte(offset: u64, n: nat) -> u64 {
    if offset + n - 1 > u64::MAX {
        (offset + n - 1 - 0x1_0000_0000_0000_0000) as u64
    } else {
        (offset + n - 1) as u64
    }
}

/// Reading `n` bytes at `offset` of `mem` as a little-endian number; an
/// access that runs past the end fails at its last byte.
pub open spec fn read_bytes(mem: Seq<u8>, offset: u64, n: nat) -> Result<u128, CPUError> {
    if offset + n <= mem.len() {
        Ok(le_value(mem.subrange(offset as int, offset + n)) as u128)
    } else {
        Err(CPUError::AddressNotMapped(last_byte(offset, n)))
    }
}

/// `mem` with `bytes` written from `offset` on.
pub open spec fn splice(mem: Seq<u8>, offset: int, bytes: Seq<u8>) -> Seq<u8> {
    Seq::new(
        mem.len(),
        |i: int|
            if offset <= i < offset + bytes.len() {
                bytes[i - offset]
            } else {
                mem[i]
            },
    )
}

/// Writing the `n` low bytes of `v` at `offset` of `mem`, little-endian.
pub open spec fn write_bytes(mem: Seq<u8>, offset: u64, n: nat, v: nat) -> Result<Seq<u8>, CPUError> {
    if offset + n <= mem.len() {
        Ok(splice(mem, offset as int, le_bytes(v, n)))
    } else {
        Err(CPUError::AddressNotMapped(last_byte(offset, n)))
    }
}

/// The outcome of a store on a memory whose bytes are `mem`.
pub open spec fn store_outcome(mem: Seq<u8>, offset: u64, n: nat, v: nat) -> (Result<(), CPUError>, Seq<u8>) {
    match write_bytes(mem, offset, n, v) {
        Ok(m) => (Ok(()), m),
        Err(e) => (Err(e), mem),
    }
}

/// `size` bytes holding `code` at the start and zeros after it.
pub open spec fn dram_image(code: Seq<u8>, size: nat) -> Seq<u8> {
    Seq::new(size, |i: int| if i < code.len() { code[i] } else { 0u8 })
}

/// Main memory: a fixed-size byte array.
pub struct Dram {
    data: Vec<u8>,
}

impl View for Dram {
    type V = Seq<u8>;

    closed spec fn view(&self) -> Seq<u8> {
        self.data@
    }
}

impl Dram {
    /// A memory of `size` zero bytes with `code` copied to its start.
    pub fn with_code(code: &[u8], size: u64) -> (r: Dram)
        requires
            code@.len() <= size,
            size <= usize::MAX,
        ensures
            r@.len() == size,
            forall|i: int| 0 <= i < code@.len() ==> r@[i] == code@[i],
            forall|i: int| code@.len() <= i < size ==> r@[i] == 0,
            r@ == dram_image(code@, size as nat),
    {
        let mut data: Vec<u8> = vec![0u8; size as usize];
        proof {
            assert forall|j: int| 0 <= j < size implies data@[j] == 0 by {
                assert(cloned(0u8, data@[j]));
            }
        }
        let mut i: usize = 0;
        while i < code.len()
            invariant
                code@.len() <= size <= usize::MAX,
                i <= code@.len(),
                data@.len() == size,
                forall|j: int| 0 <= j < i ==> data@[j] == code@[j],
                forall|j: int| i <= j < size ==> data@[j] == 0,
            decreases code@.len() - i,
        {
            data[i] = code[i];
            i = i + 1;
        }
        assert(data@ =~= dram_image(code@, size as nat));
        Dram { data }
    }

    /// Reads `n` bytes at `offset` as a little-endian number.
    pub fn read_le(&self, offset: u64, n: u64) -> (r: Result<u128, CPUError>)
        requires
            1 <= n <= 16,
        ensures
            r == read_bytes(self@, offset, n as nat),
    {
        let len = self.data.len() as u64;
        if offset > len || n > len - offset {
            return Err(CPUError::AddressNotMapped(offset.wrapping_add(n - 1)));
        }
        let ghost mem = self@;
        let mut acc: u128 = 0;
        let mut i: u64 = n;
        proof {
            lemma_pow256_values();
            assert(mem.subrange(offset + i, offset + n) =~= Seq::<u8>::empty());
        }
        while i > 0
            invariant
                mem == self@,
                mem.len() <= usize::MAX,
                1 <= n <= 16,
                i <= n,
                offset + n <= mem.len(),
                pow256(16) == 0x1_0000_0000_0000_0000_0000_0000_0000_0000,
                acc == le_value(mem.subrange(offset + i, offset + n)),
                acc < pow256((n - i) as nat),
            decreases i,
        {
            let b = self.data[(offset + i - 1) as usize];
            proof {
                let s = mem.subrange(offset + i - 1, offset + n);
                assert(s.drop_first() =~= mem.subrange(offset + i, offset + n));
                assert(s[0] == b);
                assert(le_value(s) == s[0] as nat + 256 * le_value(s.drop_first()));
                lemma_pow256_mono((n - i + 1) as nat, 16);
            }
            acc = acc * 256 + b as u128;
            i = i - 1;
        }
        proof {
            lemma_le_value_bound(mem.subrange(offset as int, offset + n));
        }
        Ok(acc)
    }

    /// Writes the `n` low bytes of `value` at `offset`, little-endian.
    pub fn write_le(&mut self, offset: u64, n: u64, value: u128) -> (r: Result<(), CPUError>)
        requires
            1 <= n <= 16,
        ensures
            (r, final(self)@) == store_outcome(old(self)@, offset, n as nat, value as nat),
    {
        let len = self.data.len() as u64;
        if offset > len || n > len - offset {
            return Err(CPUError::AddressNotMapped(offset.wrapping_add(n - 1)));
        }
        let ghost mem = self@;
        let mut cur: u128 = value;
        let mut i: u64 = 0;
        assert(pow256(0) == 1);
        while i < n
            invariant
                mem == old(self)@,
                mem.len() <= usize::MAX,
                self@.len() == mem.len(),
                1 <= n <= 16,
                i <= n,
                offset + n <= mem.len(),
                cur == value as nat / pow256(i as nat),
                forall|k: int|
                    0 <= k < mem.len() ==> #[trigger] self@[k] == if offset <= k < offset + i {
                        byte_of(value as nat, (k - offset) as nat)
                    } else {
                        mem[k]
                    },
            decreases n - i,
        {
            let ghost before = self@;
            let byte = (cur % 256) as u8;
            assert(byte == byte_of(value as nat, i as nat));
            self.data[(offset + i) as usize] = byte;
            assert(self@ == before.update(offset + i, byte));
            proof {
                lemma_pow256_positive(i as nat);
                vstd::arithmetic::div_mod::lemma_div_denominator(value as int, pow256(i as nat) as int, 256);
            }
            cur = cur / 256;
            i = i + 1;
        }
        proof {
            assert(self@ =~= splice(mem, offset as int, le_bytes(value as nat, n as nat)));
        }
        Ok(())
    }
}

impl Memory for Dram {
    open spec fn inv(&self) -> bool {
        true
    }

    fn size(&self) -> (r: u64)
        ensures
            r == self@.len(),
    {
        self.data.len() as u64
    }

    fn load_u8(&self, addr: u64) -> (r: Result<u8, CPUError>)
        ensures
            r == map_ok(read_bytes(self@, addr, 1), |v: u128| v as u8),
    {
        match self.read_le(addr, 1) {
            Ok(v) => Ok(v as u8),
            Err(e) => Err(e),
        }
    }

    fn load_u16(&self, addr: u64) -> (r: Result<u16, CPUError>)
        ensures
            r == map_ok(read_bytes(self@, addr, 2), |v: u128| v as u16),
    {
        match self.read_le(addr, 2) {
            Ok(v) => Ok(v as u16),
            Err(e) => Err(e),
        }
    }

    fn load_u32(&self, addr: u64) -> (r: Result<u32, CPUError>)
        ensures
            r == map_ok(read_bytes(self@, addr, 4), |v: u128| v as u32),
    {
        match self.read_le(addr, 4) {
            Ok(v) => Ok(v as u32),
            Err(e) => Err(e),
        }
    }

    fn load_u64(&self, addr: u64) -> (r: Result<u64, CPUError>)
        ensures
            r == map_ok(read_bytes(self@, addr, 8), |v: u128| v as u64),
    {
        match self.read_le(addr, 8) {
            Ok(v) => Ok(v as u64),
            Err(e) => Err(e),
        }
    }

    fn load_u128(&self, addr: u64) -> (r: Result<u128, CPUError>)
        ensures
            r == map_ok(read_bytes(self@, addr, 16), |v: u128| v),
    {
        match self.read_le(addr, 16) {
            Ok(v) => Ok(v),
            Err(e) => Err(e),
        }
    }

    fn load_i8(&self, addr: u64) -> (r: Result<i8, CPUError>)
        ensures
            r == map_ok(read_bytes(self@, addr, 1), |v: u128| v as u8 as i8),
    {
        match self.read_le(addr, 1) {
            Ok(v) => Ok(v as u8 as i8),
            Err(e) => Err(e),
        }
    }

    fn load_i16(&self, addr: u64) -> (r: Result<i16, CPUError>)
        ensures
            r == map_ok(read_bytes(self@, addr, 2), |v: u128| v as u16 as i16),
    {
        match self.read_le(addr, 2) {
            Ok(v) => Ok(v as u16 as i16),
            Err(e) => Err(e),
        }
    }

    fn load_i32(&self, addr: u64) -> (r: Result<i32, CPUError>)
        ensures
            r == map_ok(read_bytes(self@, addr, 4), |v: u128| v as u32 as i32),
    {
        match self.read_le(addr, 4) {
            Ok(v) => Ok(v as u32 as i32),
            Err(e) => Err(e),
        }
    }

    fn load_i64(&self, addr: u64) -> (r: Result<i64, CPUError>)
        ensures
            r == map_ok(read_bytes(self@, addr, 8), |v: u128| v as u64 as i64),
    {
        match self.read_le(addr, 8) {
            Ok(v) => Ok(v as u64 as i64),
            Err(e) => Err(e),
        }
    }

    fn load_i128(&self, addr: u64) -> (r: Result<i128, CPUError>)
        ensures
            r == map_ok(read_bytes(self@, addr, 16), |v: u128| v as u128 as i128),
    {
        match self.read_le(addr, 16) {
            Ok(v) => Ok(v as u128 as i128),
            Err(e) => Err(e),
        }
    }

    fn store_u8(&mut self, addr: u64, value: u8) -> (r: Result<(), CPUError>)
        ensures
            (r, final(self)@) == store_outcome(old(self)@, addr, 1, value as nat),
    {
        self.write_le(addr, 1, value as u128)
    }

    fn store_u16(&mut self, addr: u64, value: u16) -> (r: Result<(), CPUError>)
        ensures
            (r, final(self)@) == store_outcome(old(self)@, addr, 2, value as nat),
    {
        self.write_le(addr, 2, value as u128)
    }

    fn store_u32(&mut self, addr: u64, value: u32) -> (r: Result<(), CPUError>)
        ensures
            (r, final(self)@) == store_outcome(old(self)@, addr, 4, value as nat),
    {
        self.write_le(addr, 4, value as u128)
    }

    fn store_u64(&mut self, addr: u64, value: u64) -> (r: Result<(), CPUError>)
        ensures
            (r, final(self)@) == store_outcome(old(self)@, addr, 8, value as nat),
    {
        self.write_le(addr, 8, value as u128)
    }

    fn store_u128(&mut self, addr: u64, value: u128) -> (r: Result<(), CPUError>)
        ensures
            (r, final(self)@) == store_outcome(old(self)@, addr, 16, value as nat),
    {
        self.write_le(addr, 16, value)
    }

    fn store_i8(&mut self, addr: u64, value: i8) -> (r: Result<(), CPUError>)
        ensures
            (r, final(self)@) == store_outcome(old(self)@, addr, 1, value as u8 as nat),
    {
        self.write_le(addr, 1, value as u8 as u128)
    }

    fn store_i16(&mut self, addr: u64, value: i16) -> (r: Result<(), CPUError>)
        ensures
            (r, final(self)@) == store_outcome(old(self)@, addr, 2, value as u16 as nat),
    {
        self.write_le(addr, 2, value as u16 as u128)
    }

    fn store_i32(&mut self, addr: u64, value: i32) -> (r: Result<(), CPUError>)
        ensures
            (r, final(self)@) == store_outcome(old(self)@, addr, 4, value as u32 as nat),
    {
        self.write_le(addr, 4, value as u32 as u128)
    }

    fn store_i64(&mut self, addr: u64, value: i64) -> (r: Result<(), CPUError>)
        ensures
            (r, final(self)@) == store_outcome(old(self)@, addr, 8, value as u64 as nat),
    {
        self.write_le(addr, 8, value as u64 as u128)
    }

    fn store_i128(&mut self, addr: u64, value: i128) -> (r: Result<(), CPUError>)
        ensures
            (r, final(self)@) == store_outcome(old(self)@, addr, 16, value as u128 as nat),
    {
        self.write_le(addr, 16, value as u128 as u128)
    }

    fn get_data(&self, range: Range<u64>) -> (r: Result<Vec<u8>, CPUError>)
        ensures
            r is Ok <==> range.end <= self@.len(),
            r matches Ok(v) ==> v@ == self@.subrange(range.start as int, range.end as int),
            r matches Err(e) ==> e == CPUError::AddressNotMapped(range.end),
    {
        let len = self.data.len();
        if range.end > len as u64 {
            return Err(CPUError::AddressNotMapped(range.end));
        }
        let mut out: Vec<u8> = Vec::new();
        let mut i: u64 = range.start;
        while i < range.end
            invariant
                range.start <= i <= range.end <= self@.len(),
                self@.len() == len,
                out@ =~= self@.subrange(range.start as int, i as int),
            decreases range.end - i,
        {
            out.push(self.data[i as usize]);
            i = i + 1;
        }
        Ok(out)
    }
}

} // verus!
