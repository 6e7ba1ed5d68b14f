//! The address map: absolute addresses routed to memory devices.
use std::ops::Range;
use vstd::prelude::*;

use crate::bytes::{lemma_le_value_bound, lemma_pow256_mono, lemma_pow256_values, pow256};
use crate::dram::{read_bytes, store_outcome, Dram};
use crate::error::CPUError;
use crate::memory::{map_ok, Memory};

verus! {

/// One mapping as the contracts see it: start, end (exclusive) and the
/// bytes of the device behind it.
pub type RegionView = (u64, u64, Seq<u8>);

/// Region `i` of `map` holds `addr`.
pub open spec fn holds(map: Seq<RegionView>, i: int, addr: u64) -> bool {
    0 <= i < map.len() && map[i].0 <= addr < map[i].1
}

/// Ranges are non-empty, ascending and disjoint; each device covers its range.
pub open spec fn map_wf(map: Seq<RegionView>) -> bool {
    &&& forall|i: int| 0 <= i < map.len() ==> #[trigger] map[i].0 < map[i].1 && map[i].1 - map[i].0 <= map[i].2.len()
    &&& forall|i: int, j: int| 0 <= i < j < map.len() ==> #[trigger] map[i].1 <= #[trigger] map[j].0
}

/// The index of the region that holds `addr`, if any.
pub open spec fn region_of(map: Seq<RegionView>, addr: u64) -> Option<int> {
    if exists|i: int| holds(map, i, addr) {
        Some(choose|i: int| holds(map, i, addr))
    } else {
        None
    }
}

/// A read of `n` bytes at absolute address `addr`, delegated to the device
/// at the offset relative to its range's start.
pub open spec fn bus_read(map: Seq<RegionView>, addr: u64, n: nat) -> Result<u128, CPUError> {
    match region_of(map, addr) {
        Some(i) => read_bytes(map[i].2, (addr - map[i].0) as u64, n),
        None => Err(CPUError::AddressNotMapped(addr)),
    }
}

/// The outcome of writing the `n` low bytes of `v` at absolute address `addr`.
pub open spec fn bus_store(map: Seq<RegionView>, addr: u64, n: nat, v: nat) -> (Result<(), CPUError>, Seq<RegionView>) {
    match region_of(map, addr) {
        Some(i) => {
            let (r, bytes) = store_outcome(map[i].2, (addr - map[i].0) as u64, n, v);
            (r, map.update(i, (map[i].0, map[i].1, bytes)))
        },
        None => (Err(CPUError::AddressNotMapped(addr)), map),
    }
}

/// The bytes from `start` to `end` as the device holding `start` has them.
pub open spec fn bus_data(map: Seq<RegionView>, start: u64, end: u64) -> Result<Seq<u8>, CPUError> {
    match region_of(map, start) {
        Some(i) => {
            let lo = start - map[i].0;
            let hi = end - map[i].0;
            if hi <= map[i].2.len() {
                Ok(map[i].2.subrange(lo, hi))
            } else {
                Err(CPUError::AddressNotMapped(hi as u64))
            }
        },
        None => Err(CPUError::AddressNotMapped(start)),
    }
}

/// A successful read of `n` bytes yields a value below `256^n`.
pub proof fn lemma_bus_read_bound(map: Seq<RegionView>, addr: u64, n: nat)
    requires
        1 <= n <= 16,
    ensures
        bus_read(map, addr, n) matches Ok(v) ==> v < pow256(n),
{
    if let Some(i) = region_of(map, addr) {
        let off = (addr - map[i].0) as u64;
        if off + n <= map[i].2.len() {
            let bytes = map[i].2.subrange(off as int, off + n);
            lemma_le_value_bound(bytes);
            lemma_pow256_mono(n, 16);
            lemma_pow256_values();
        }
    }
}

/// Two regions of a well-formed map never hold the same address.
pub proof fn lemma_region_unique(map: Seq<RegionView>, i: int, j: int, addr: u64)
    requires
        map_wf(map),
        holds(map, i, addr),
        holds(map, j, addr),
    ensures
        i == j,
{
    if i < j {
        assert(map[i].1 <= map[j].0);
    } else if j < i {
        assert(map[j].1 <= map[i].0);
    }
}

/// Routes typed accesses to the device whose range holds the address.
pub struct Bus {
    mem_map: Vec<(Range<u64>, Dram)>,
}

impl View for Bus {
    type V = Seq<RegionView>;

    closed spec fn view(&self) -> Seq<RegionView> {
        self.mem_map@.map_values(|e: (Range<u64>, Dram)| (e.0.start, e.0.end, e.1@))
    }
}

impl Bus {
    /// A bus over `mem_map`, a list of address ranges and their devices.
    pub fn new(mem_map: Vec<(Range<u64>, Dram)>) -> (r: Bus)
        requires
            map_wf(mem_map@.map_values(|e: (Range<u64>, Dram)| (e.0.start, e.0.end, e.1@))),
        ensures
            r@ == mem_map@.map_values(|e: (Range<u64>, Dram)| (e.0.start, e.0.end, e.1@)),
            r.inv(),
    {
        Bus { mem_map }
    }

    /// The index of the mapping that holds `addr`.
    fn find(&self, addr: u64) -> (r: Option<usize>)
        requires
            map_wf(self@),
        ensures
            r matches Some(i) ==> region_of(self@, addr) == Some(i as int),
            r is None ==> region_of(self@, addr) is None,
    {
        let mut i: usize = 0;
        while i < self.mem_map.len()
            invariant
                0 <= i <= self@.len(),
                map_wf(self@),
                self@.len() == self.mem_map@.len(),
                forall|j: int| 0 <= j < i ==> !holds(self@, j, addr),
            decreases self.mem_map.len() - i,
        {
            let range = &self.mem_map[i].0;
            if range.start <= addr && addr < range.end {
                proof {
                    assert(holds(self@, i as int, addr));
                    let k = choose|k: int| holds(self@, k, addr);
                    lemma_region_unique(self@, i as int, k, addr);
                }
                return Some(i);
            }
            assert(!holds(self@, i as int, addr));
            i = i + 1;
        }
        None
    }

    /// Reads `n` bytes at absolute address `addr` as a little-endian number.
    pub fn read_le(&self, addr: u64, n: u64) -> (r: Result<u128, CPUError>)
        requires
            self.inv(),
            1 <= n <= 16,
        ensures
            r == bus_read(self@, addr, n as nat),
    {
        match self.find(addr) {
            Some(i) => {
                let start = self.mem_map[i].0.start;
                self.mem_map[i].1.read_le(addr - start, n)
            },
            None => Err(CPUError::AddressNotMapped(addr)),
        }
    }

    /// Writes the `n` low bytes of `value` at absolute address `addr`.
    pub fn write_le(&mut self, addr: u64, n: u64, value: u128) -> (r: Result<(), CPUError>)
        requires
            old(self).inv(),
            1 <= n <= 16,
        ensures
            (r, final(self)@) == bus_store(old(self)@, addr, n as nat, value as nat),
            final(self).inv(),
    {
        match self.find(addr) {
            Some(i) => {
                let start = self.mem_map[i].0.start;
                let r = self.mem_map[i].1.write_le(addr - start, n, value);
                proof {
                    assert(self@ =~= bus_store(old(self)@, addr, n as nat, value as nat).1);
                }
                r
            },
            None => Err(CPUError::AddressNotMapped(addr)),
        }
    }
}

impl Memory for Bus {
    open spec fn inv(&self) -> bool {
        map_wf(self@)
    }

    /// The bus spans the whole address space.
    fn size(&self) -> (r: u64)
        ensures
            r == u64::MAX,
    {
        u64::MAX
    }

    fn load_u8(&self, addr: u64) -> (r: Result<u8, CPUError>)
        ensures
            r == map_ok(bus_read(self@, addr, 1), |v: u128| v as u8),
    {
        match self.read_le(addr, 1) {
            Ok(v) => Ok(v as u8),
            Err(e) => Err(e),
        }
    }

    fn load_u16(&self, addr: u64) -> (r: Result<u16, CPUError>)
        ensures
            r == map_ok(bus_read(self@, addr, 2), |v: u128| v as u16),
    {
        match self.read_le(addr, 2) {
            Ok(v) => Ok(v as u16),
            Err(e) => Err(e),
        }
    }

    fn load_u32(&self, addr: u64) -> (r: Result<u32, CPUError>)
        ensures
            r == map_ok(bus_read(self@, addr, 4), |v: u128| v as u32),
    {
        match self.read_le(addr, 4) {
            Ok(v) => Ok(v as u32),
            Err(e) => Err(e),
        }
    }

    fn load_u64(&self, addr: u64) -> (r: Result<u64, CPUError>)
        ensures
            r == map_ok(bus_read(self@, addr, 8), |v: u128| v as u64),
    {
        match self.read_le(addr, 8) {
            Ok(v) => Ok(v as u64),
            Err(e) => Err(e),
        }
    }

    fn load_u128(&self, addr: u64) -> (r: Result<u128, CPUError>)
        ensures
            r == map_ok(bus_read(self@, addr, 16), |v: u128| v),
    {
        match self.read_le(addr, 16) {
            Ok(v) => Ok(v),
            Err(e) => Err(e),
        }
    }

    fn load_i8(&self, addr: u64) -> (r: Result<i8, CPUError>)
        ensures
            r == map_ok(bus_read(self@, addr, 1), |v: u128| v as u8 as i8),
    {
        match self.read_le(addr, 1) {
            Ok(v) => Ok(v as u8 as i8),
            Err(e) => Err(e),
        }
    }

    fn load_i16(&self, addr: u64) -> (r: Result<i16, CPUError>)
        ensures
            r == map_ok(bus_read(self@, addr, 2), |v: u128| v as u16 as i16),
    {
        match self.read_le(addr, 2) {
            Ok(v) => Ok(v as u16 as i16),
            Err(e) => Err(e),
        }
    }

    fn load_i32(&self, addr: u64) -> (r: Result<i32, CPUError>)
        ensures
            r == map_ok(bus_read(self@, addr, 4), |v: u128| v as u32 as i32),
    {
        match self.read_le(addr, 4) {
            Ok(v) => Ok(v as u32 as i32),
            Err(e) => Err(e),
        }
    }

    fn load_i64(&self, addr: u64) -> (r: Result<i64, CPUError>)
        ensures
            r == map_ok(bus_read(self@, addr, 8), |v: u128| v as u64 as i64),
    {
        match self.read_le(addr, 8) {
            Ok(v) => Ok(v as u64 as i64),
            Err(e) => Err(e),
        }
    }

    fn load_i128(&self, addr: u64) -> (r: Result<i128, CPUError>)
        ensures
            r == map_ok(bus_read(self@, addr, 16), |v: u128| v as u128 as i128),
    {
        match self.read_le(addr, 16) {
            Ok(v) => Ok(v as u128 as i128),
            Err(e) => Err(e),
        }
    }

    fn store_u8(&mut self, addr: u64, value: u8) -> (r: Result<(), CPUError>)
        ensures
            (r, final(self)@) == bus_store(old(self)@, addr, 1, value as nat),
    {
        self.write_le(addr, 1, value as u128)
    }

    fn store_u16(&mut self, addr: u64, value: u16) -> (r: Result<(), CPUError>)
        ensures
            (r, final(self)@) == bus_store(old(self)@, addr, 2, value as nat),
    {
        self.write_le(addr, 2, value as u128)
    }

    fn store_u32(&mut self, addr: u64, value: u32) -> (r: Result<(), CPUError>)
        ensures
            (r, final(self)@) == bus_store(old(self)@, addr, 4, value as nat),
    {
        self.write_le(addr, 4, value as u128)
    }

    fn store_u64(&mut self, addr: u64, value: u64) -> (r: Result<(), CPUError>)
        ensures
            (r, final(self)@) == bus_store(old(self)@, addr, 8, value as nat),
    {
        self.write_le(addr, 8, value as u128)
    }

    fn store_u128(&mut self, addr: u64, value: u128) -> (r: Result<(), CPUError>)
        ensures
            (r, final(self)@) == bus_store(old(self)@, addr, 16, value as nat),
    {
        self.write_le(addr, 16, value)
    }

    fn store_i8(&mut self, addr: u64, value: i8) -> (r: Result<(), CPUError>)
        ensures
            (r, final(self)@) == bus_store(old(self)@, addr, 1, value as u8 as nat),
    {
        self.write_le(addr, 1, value as u8 as u128)
    }

    fn store_i16(&mut self, addr: u64, value: i16) -> (r: Result<(), CPUError>)
        ensures
            (r, final(self)@) == bus_store(old(self)@, addr, 2, value as u16 as nat),
    {
        self.write_le(addr, 2, value as u16 as u128)
    }

    fn store_i32(&mut self, addr: u64, value: i32) -> (r: Result<(), CPUError>)
        ensures
            (r, final(self)@) == bus_store(old(self)@, addr, 4, value as u32 as nat),
    {
        self.write_le(addr, 4, value as u32 as u128)
    }

    fn store_i64(&mut self, addr: u64, value: i64) -> (r: Result<(), CPUError>)
        ensures
            (r, final(self)@) == bus_store(old(self)@, addr, 8, value as u64 as nat),
    {
        self.write_le(addr, 8, value as u64 as u128)
    }

    fn store_i128(&mut self, addr: u64, value: i128) -> (r: Result<(), CPUError>)
        ensures
            (r, final(self)@) == bus_store(old(self)@, addr, 16, value as u128 as nat),
    {
        self.write_le(addr, 16, value as u128 as u128)
    }

    /// A copy of the bytes in `range`, taken from the device whose range
    /// holds `range.start`.
    fn get_data(&self, range: Range<u64>) -> (r: Result<Vec<u8>, CPUError>)
        ensures
            r matches Ok(v) ==> bus_data(self@, range.start, range.end) == Ok::<Seq<u8>, CPUError>(v@),
            r matches Err(e) ==> bus_data(self@, range.start, range.end) == Err::<Seq<u8>, CPUError>(e),
    {
        match self.find(range.start) {
            Some(i) => {
                let start = self.mem_map[i].0.start;
                self.mem_map[i].1.get_data((range.start - start)..(range.end - start))
            },
            None => Err(CPUError::AddressNotMapped(range.start)),
        }
    }
}

} // verus!
