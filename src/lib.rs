//! An interpreting emulator for the RISC-V base integer instruction set
//! (RV32I, RV32E and RV64I), with a little-endian memory bus, the RV32
//! multiply extension, and a slot for the floating-point extensions.
//!
//! Every instruction's effect is stated as a function of the machine state
//! (`hart::execute_spec`) and each processor's `cycle` and `execute` are
//! proved to follow it.
use vstd::prelude::*;

pub mod alu;
pub mod bus;
pub mod bytes;
pub mod decode;
pub mod dram;
pub mod dump;
pub mod error;
pub mod ext;
pub mod hart;
pub mod isa;
pub mod laws;
pub mod memory;
pub mod timing;
pub mod word;

pub use bus::Bus;
pub use dram::Dram;
pub use dump::RegisterDump;
pub use error::CPUError;
pub use ext::{FloatExt, M};
pub use hart::{Hart, HostCall};
pub use isa::{DRAM_BASE, DRAM_SIZE, RV32E, RV32I, RV64I};
pub use memory::Memory;
pub use timing::human_time;

verus! {

} // verus!
