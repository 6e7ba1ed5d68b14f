//! The typed load/store surface shared by memory devices and the bus.
use std::ops::Range;
use vstd::prelude::*;

use crate::error::CPUError;

verus! {

/// Applies `f` to the value of a successful access and keeps the error.
pub open spec fn map_ok<T>(r: Result<u128, CPUError>, f: spec_fn(u128) -> T) -> Result<T, CPUError> {
    match r {
        Ok(v) => Ok(f(v)),
        Err(e) => Err(e),
    }
}

/// Little-endian typed access to a byte-addressed memory. Loads never
/// sign-extend: a signed load reinterprets the bytes of the same width.
pub trait Memory {
    /// The well-formedness the implementation keeps.
    spec fn inv(&self) -> bool;

    /// Declared byte capacity.
    fn size(&self) -> (r: u64)
        requires
            self.inv(),
    ;

    fn load_u8(&self, addr: u64) -> (r: Result<u8, CPUError>)
        requires
            self.inv(),
    ;

    fn load_u16(&self, addr: u64) -> (r: Result<u16, CPUError>)
        requires
            self.inv(),
    ;

    fn load_u32(&self, addr: u64) -> (r: Result<u32, CPUError>)
        requires
            self.inv(),
    ;

    fn load_u64(&self, addr: u64) -> (r: Result<u64, CPUError>)
        requires
            self.inv(),
    ;

    fn load_u128(&self, addr: u64) -> (r: Result<u128, CPUError>)
        requires
            self.inv(),
    ;

    fn load_i8(&self, addr: u64) -> (r: Result<i8, CPUError>)
        requires
            self.inv(),
    ;

    fn load_i16(&self, addr: u64) -> (r: Result<i16, CPUError>)
        requires
            self.inv(),
    ;

    fn load_i32(&self, addr: u64) -> (r: Result<i32, CPUError>)
        requires
            self.inv(),
    ;

    fn load_i64(&self, addr: u64) -> (r: Result<i64, CPUError>)
        requires
            self.inv(),
    ;

    fn load_i128(&self, addr: u64) -> (r: Result<i128, CPUError>)
        requires
            self.inv(),
    ;

    fn store_u8(&mut self, addr: u64, value: u8) -> (r: Result<(), CPUError>)
        requires
            old(self).inv(),
        ensures
            final(self).inv(),
    ;

    fn store_u16(&mut self, addr: u64, value: u16) -> (r: Result<(), CPUError>)
        requires
            old(self).inv(),
        ensures
            final(self).inv(),
    ;

    fn store_u32(&mut self, addr: u64, value: u32) -> (r: Result<(), CPUError>)
        requires
            old(self).inv(),
        ensures
            final(self).inv(),
    ;

    fn store_u64(&mut self, addr: u64, value: u64) -> (r: Result<(), CPUError>)
        requires
            old(self).inv(),
        ensures
            final(self).inv(),
    ;

    fn store_u128(&mut self, addr: u64, value: u128) -> (r: Result<(), CPUError>)
        requires
            old(self).inv(),
        ensures
            final(self).inv(),
    ;

    fn store_i8(&mut self, addr: u64, value: i8) -> (r: Result<(), CPUError>)
        requires
            old(self).inv(),
        ensures
            final(self).inv(),
    ;

    fn store_i16(&mut self, addr: u64, value: i16) -> (r: Result<(), CPUError>)
        requires
            old(self).inv(),
        ensures
            final(self).inv(),
    ;

    fn store_i32(&mut self, addr: u64, value: i32) -> (r: Result<(), CPUError>)
        requires
            old(self).inv(),
        ensures
            final(self).inv(),
    ;

    fn store_i64(&mut self, addr: u64, value: i64) -> (r: Result<(), CPUError>)
        requires
            old(self).inv(),
        ensures
            final(self).inv(),
    ;

    fn store_i128(&mut self, addr: u64, value: i128) -> (r: Result<(), CPUError>)
        requires
            old(self).inv(),
        ensures
            final(self).inv(),
    ;

    /// A copy of the bytes in `range`.
    fn get_data(&self, range: Range<u64>) -> (r: Result<Vec<u8>, CPUError>)
        requires
            self.inv(),
            range.start <= range.end,
    ;
}

} // verus!
