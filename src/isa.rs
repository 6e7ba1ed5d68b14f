//! The three processors: RV32I, RV32E and RV64I. Each owns a core of its
//! width and register count, the DRAM range it resets to, and its optional
//! extensions.
use std::ops::Range;
use vstd::prelude::*;

use crate::bus::{bus_data, bus_read, Bus, RegionView};
use crate::dram::{dram_image, Dram};
use crate::dump::RegisterDump;
use crate::error::CPUError;
use crate::ext::{mul_spec, FloatExt, M};
use crate::hart::{
    cycle_with, execute_spec, lemma_failed_execute_keeps_state, state_wf, Hart, HostCall,
    HartState,
};
use crate::memory::{map_ok, Memory};
use crate::word::is_word;

verus! {

/// Where main memory starts in the address space.
pub const DRAM_BASE: u64 = 0x8000_0000;

/// The size of main memory: 128 MiB.
pub const DRAM_SIZE: u64 = 0x800_0000;

/// The address map of a processor built around a program: one DRAM region
/// from `DRAM_BASE` holding `code` and zeros after it.
pub open spec fn program_map(code: Seq<u8>) -> Seq<RegionView> {
    seq![(DRAM_BASE, (DRAM_BASE + DRAM_SIZE) as u64, dram_image(code, DRAM_SIZE as nat))]
}

/// The state after reset: the program counter at `start`, the stack
/// pointer at `end`, every other register zero.
pub open spec fn is_reset(s: HartState, start: u64, end: u64) -> bool {
    &&& s.pc == start
    &&& forall|i: int| 0 <= i < s.regs.len() ==> #[trigger] s.regs[i] == if i == 2 {
        end
    } else {
        0
    }
}

/// The RV32I executor: the base set, then the multiply extension when
/// present, for what the base set does not implement.
pub open spec fn rv32i_execute(s: HartState, has_mul: bool, insn: u32) -> (Result<(), CPUError>, HartState) {
    let (r, t) = execute_spec(s, insn);
    if has_mul && r matches Err(CPUError::InstructionNotImplemented(_)) {
        mul_spec(s, insn)
    } else {
        (r, t)
    }
}

/// Builds the single-region bus of a processor around `code`.
fn program_bus(code: &[u8]) -> (r: Bus)
    requires
        code@.len() <= DRAM_SIZE,
    ensures
        r.inv(),
        r@ == program_map(code@),
{
    let dram = Dram::with_code(code, DRAM_SIZE);
    let mut mem_map: Vec<(Range<u64>, Dram)> = Vec::new();
    mem_map.push((DRAM_BASE..DRAM_BASE + DRAM_SIZE, dram));
    let ghost view = mem_map@.map_values(|e: (Range<u64>, Dram)| (e.0.start, e.0.end, e.1@));
    assert(view =~= program_map(code@));
    Bus::new(mem_map)
}

/// A processor of the RV32I instruction set.
pub struct RV32I {
    hart: Hart,
    float_ext: Option<FloatExt>,
    mul_ext: Option<M>,
    dram_mapping: Range<u64>,
}

impl View for RV32I {
    type V = HartState;

    closed spec fn view(&self) -> HartState {
        self.hart@
    }
}

impl RV32I {
    pub const ISA_ID: &'static str = "RV32I";

    /// The DRAM range the processor resets to.
    pub closed spec fn dram(&self) -> (u64, u64) {
        (self.dram_mapping.start, self.dram_mapping.end)
    }

    /// The multiply extension is present.
    pub closed spec fn has_mul(&self) -> bool {
        self.mul_ext is Some
    }

    /// What the contracts of a working RV32I rely on.
    pub open spec fn wf(&self) -> bool {
        &&& state_wf(self@)
        &&& self@.xlen == 32
        &&& self@.regs.len() == 32
        &&& self.dram().0 <= self.dram().1
        &&& is_word(32, self.dram().0)
        &&& is_word(32, self.dram().1)
    }

    /// The executor of this instruction set.
    pub open spec fn exec_spec(&self) -> spec_fn(HartState, u32) -> (Result<(), CPUError>, HartState) {
        |s: HartState, insn: u32| rv32i_execute(s, self.has_mul(), insn)
    }

    /// A processor on `bus`, reset to `dram_mapping`.
    pub fn new(bus: Bus, dram_mapping: Range<u64>, float_ext: Option<FloatExt>, mul_ext: Option<M>) -> (r: RV32I)
        requires
            bus.inv(),
            dram_mapping.start <= dram_mapping.end,
            is_word(32, dram_mapping.start),
            is_word(32, dram_mapping.end),
        ensures
            r.wf(),
            r.dram() == (dram_mapping.start, dram_mapping.end),
            is_reset(r@, dram_mapping.start, dram_mapping.end),
            r@.mem == bus@,
            r@.host == Seq::<HostCall>::empty(),
            r.has_mul() == mul_ext is Some,
    {
        let hart = Hart::new(32, 32, bus, dram_mapping.start, dram_mapping.end);
        RV32I { hart, float_ext, mul_ext, dram_mapping }
    }

    /// A processor whose DRAM (128 MiB at `DRAM_BASE`) starts with `code`.
    pub fn with_code(code: &[u8], float_ext: Option<FloatExt>) -> (r: RV32I)
        requires
            code@.len() <= DRAM_SIZE,
        ensures
            r.wf(),
            r.dram() == (DRAM_BASE, (DRAM_BASE + DRAM_SIZE) as u64),
            is_reset(r@, DRAM_BASE, (DRAM_BASE + DRAM_SIZE) as u64),
            r@.mem == program_map(code@),
            r@.host == Seq::<HostCall>::empty(),
            !r.has_mul(),
    {
        let bus = program_bus(code);
        RV32I::new(bus, DRAM_BASE..DRAM_BASE + DRAM_SIZE, float_ext, None)
    }

    pub fn isa_id(&self) -> (r: &'static str)
        ensures
            r == Self::ISA_ID,
    {
        Self::ISA_ID
    }

    /// The core.
    pub fn hart(&self) -> (r: &Hart)
        ensures
            r@ == self@,
            self.wf() ==> r.wf(),
    {
        &self.hart
    }

    /// Fetches, advances the program counter by 4, and executes.
    pub fn cycle(&mut self) -> (r: Result<(), CPUError>)
        requires
            old(self).wf(),
        ensures
            final(self).wf(),
            final(self).dram() == old(self).dram(),
            final(self).has_mul() == old(self).has_mul(),
            (r, final(self)@) == cycle_with(old(self)@, old(self).exec_spec()),
    {
        let instruction = match self.fetch() {
            Ok(w) => w,
            Err(e) => return Err(e),
        };
        self.hart.advance_pc();
        self.execute(instruction)
    }

    /// Executes `instruction`; the program counter already points past it.
    pub fn execute(&mut self, instruction: u32) -> (r: Result<(), CPUError>)
        requires
            old(self).wf(),
        ensures
            final(self).wf(),
            final(self).dram() == old(self).dram(),
            final(self).has_mul() == old(self).has_mul(),
            (r, final(self)@) == (old(self).exec_spec())(old(self)@, instruction),
    {
        proof {
            lemma_failed_execute_keeps_state(self@, instruction);
        }
        let r = self.hart.execute(instruction);
        match r {
            Err(CPUError::InstructionNotImplemented(_)) => {
                let r = match self.mul_ext {
                    Some(_) => M::execute(&mut self.hart, instruction),
                    None => r,
                };
                if !(r matches Err(CPUError::InstructionNotImplemented(_))) {
                    return r;
                }
                match self.float_ext {
                    Some(f) => f.execute(&mut self.hart, instruction),
                    None => r,
                }
            },
            _ => r,
        }
    }

    /// The instruction word at the program counter.
    pub fn fetch(&self) -> (r: Result<u32, CPUError>)
        requires
            self.wf(),
        ensures
            r == map_ok(bus_read(self@.mem, self@.pc, 4), |v: u128| v as u32),
    {
        self.hart.fetch()
    }

    /// Puts the program counter at the start of DRAM and the stack pointer
    /// at its end, and clears the other registers.
    pub fn reset(&mut self)
        requires
            old(self).wf(),
        ensures
            final(self).wf(),
            final(self).dram() == old(self).dram(),
            final(self).has_mul() == old(self).has_mul(),
            is_reset(final(self)@, old(self).dram().0, old(self).dram().1),
            final(self)@.mem == old(self)@.mem,
            final(self)@.host == old(self)@.host,
    {
        self.hart.reset(self.dram_mapping.start, self.dram_mapping.end);
    }

    /// The program counter and every register.
    pub fn dump_registers(&self) -> (r: RegisterDump)
        ensures
            r@.0 == Some(self@.pc),
            r@.1.len() == self@.regs.len(),
            forall|i: int| 0 <= i < self@.regs.len() ==> r@.1[i] == Some(self@.regs[i]),
    {
        RegisterDump::new(self.hart.pc(), self.hart.registers())
    }

    /// A copy of DRAM.
    pub fn dump_memory(&self) -> (r: Result<Vec<u8>, CPUError>)
        requires
            self.wf(),
        ensures
            r matches Ok(v) ==> bus_data(self@.mem, self.dram().0, self.dram().1) == Ok::<Seq<u8>, CPUError>(v@),
            r matches Err(e) ==> bus_data(self@.mem, self.dram().0, self.dram().1) == Err::<Seq<u8>, CPUError>(e),
    {
        self.hart.bus().get_data(self.dram_mapping.start..self.dram_mapping.end)
    }

    /// The requests for the host that the program made since the last call.
    pub fn take_host_calls(&mut self) -> (r: Vec<HostCall>)
        requires
            old(self).wf(),
        ensures
            final(self).wf(),
            final(self).dram() == old(self).dram(),
            final(self).has_mul() == old(self).has_mul(),
            r@ == old(self)@.host,
            final(self)@ == (HartState { host: Seq::empty(), ..old(self)@ }),
    {
        self.hart.take_host_calls()
    }
}

/// A processor of the RV32E instruction set.
pub struct RV32E {
    hart: Hart,
    float_ext: Option<FloatExt>,
    dram_mapping: Range<u64>,
}

impl View for RV32E {
    type V = HartState;

    closed spec fn view(&self) -> HartState {
        self.hart@
    }
}

impl RV32E {
    pub const ISA_ID: &'static str = "RV32E";

    /// The DRAM range the processor resets to.
    pub closed spec fn dram(&self) -> (u64, u64) {
        (self.dram_mapping.start, self.dram_mapping.end)
    }

    /// What the contracts of a working RV32E rely on.
    pub open spec fn wf(&self) -> bool {
        &&& state_wf(self@)
        &&& self@.xlen == 32
        &&& self@.regs.len() == 16
        &&& self.dram().0 <= self.dram().1
        &&& is_word(32, self.dram().0)
        &&& is_word(32, self.dram().1)
    }

    /// The executor of this instruction set.
    pub open spec fn exec_spec(&self) -> spec_fn(HartState, u32) -> (Result<(), CPUError>, HartState) {
        |s: HartState, insn: u32| execute_spec(s, insn)
    }

    /// A processor on `bus`, reset to `dram_mapping`.
    pub fn new(bus: Bus, dram_mapping: Range<u64>, float_ext: Option<FloatExt>) -> (r: RV32E)
        requires
            bus.inv(),
            dram_mapping.start <= dram_mapping.end,
            is_word(32, dram_mapping.start),
            is_word(32, dram_mapping.end),
        ensures
            r.wf(),
            r.dram() == (dram_mapping.start, dram_mapping.end),
            is_reset(r@, dram_mapping.start, dram_mapping.end),
            r@.mem == bus@,
            r@.host == Seq::<HostCall>::empty(),
    {
        let hart = Hart::new(32, 16, bus, dram_mapping.start, dram_mapping.end);
        RV32E { hart, float_ext, dram_mapping }
    }

    /// A processor whose DRAM (128 MiB at `DRAM_BASE`) starts with `code`.
    pub fn with_code(code: &[u8], float_ext: Option<FloatExt>) -> (r: RV32E)
        requires
            code@.len() <= DRAM_SIZE,
        ensures
            r.wf(),
            r.dram() == (DRAM_BASE, (DRAM_BASE + DRAM_SIZE) as u64),
            is_reset(r@, DRAM_BASE, (DRAM_BASE + DRAM_SIZE) as u64),
            r@.mem == program_map(code@),
            r@.host == Seq::<HostCall>::empty(),
    {
        let bus = program_bus(code);
        RV32E::new(bus, DRAM_BASE..DRAM_BASE + DRAM_SIZE, float_ext)
    }

    pub fn isa_id(&self) -> (r: &'static str)
        ensures
            r == Self::ISA_ID,
    {
        Self::ISA_ID
    }

    /// The core.
    pub fn hart(&self) -> (r: &Hart)
        ensures
            r@ == self@,
            self.wf() ==> r.wf(),
    {
        &self.hart
    }

    /// Fetches, advances the program counter by 4, and executes.
    pub fn cycle(&mut self) -> (r: Result<(), CPUError>)
        requires
            old(self).wf(),
        ensures
            final(self).wf(),
            final(self).dram() == old(self).dram(),
            (r, final(self)@) == cycle_with(old(self)@, old(self).exec_spec()),
    {
        let instruction = match self.fetch() {
            Ok(w) => w,
            Err(e) => return Err(e),
        };
        self.hart.advance_pc();
        self.execute(instruction)
    }

    /// Executes `instruction`; the program counter already points past it.
    pub fn execute(&mut self, instruction: u32) -> (r: Result<(), CPUError>)
        requires
            old(self).wf(),
        ensures
            final(self).wf(),
            final(self).dram() == old(self).dram(),
            (r, final(self)@) == (old(self).exec_spec())(old(self)@, instruction),
    {
        proof {
            lemma_failed_execute_keeps_state(self@, instruction);
        }
        let r = self.hart.execute(instruction);
        match r {
            Err(CPUError::InstructionNotImplemented(_)) => {
                match self.float_ext {
                    Some(f) => f.execute(&mut self.hart, instruction),
                    None => r,
                }
            },
            _ => r,
        }
    }

    /// The instruction word at the program counter.
    pub fn fetch(&self) -> (r: Result<u32, CPUError>)
        requires
            self.wf(),
        ensures
            r == map_ok(bus_read(self@.mem, self@.pc, 4), |v: u128| v as u32),
    {
        self.hart.fetch()
    }

    /// Puts the program counter at the start of DRAM and the stack pointer
    /// at its end, and clears the other registers.
    pub fn reset(&mut self)
        requires
            old(self).wf(),
        ensures
            final(self).wf(),
            final(self).dram() == old(self).dram(),
            is_reset(final(self)@, old(self).dram().0, old(self).dram().1),
            final(self)@.mem == old(self)@.mem,
            final(self)@.host == old(self)@.host,
    {
        self.hart.reset(self.dram_mapping.start, self.dram_mapping.end);
    }

    /// The program counter and every register.
    pub fn dump_registers(&self) -> (r: RegisterDump)
        ensures
            r@.0 == Some(self@.pc),
            r@.1.len() == self@.regs.len(),
            forall|i: int| 0 <= i < self@.regs.len() ==> r@.1[i] == Some(self@.regs[i]),
    {
        RegisterDump::new(self.hart.pc(), self.hart.registers())
    }

    /// A copy of DRAM.
    pub fn dump_memory(&self) -> (r: Result<Vec<u8>, CPUError>)
        requires
            self.wf(),
        ensures
            r matches Ok(v) ==> bus_data(self@.mem, self.dram().0, self.dram().1) == Ok::<Seq<u8>, CPUError>(v@),
            r matches Err(e) ==> bus_data(self@.mem, self.dram().0, self.dram().1) == Err::<Seq<u8>, CPUError>(e),
    {
        self.hart.bus().get_data(self.dram_mapping.start..self.dram_mapping.end)
    }

    /// The requests for the host that the program made since the last call.
    pub fn take_host_calls(&mut self) -> (r: Vec<HostCall>)
        requires
            old(self).wf(),
        ensures
            final(self).wf(),
            final(self).dram() == old(self).dram(),
            r@ == old(self)@.host,
            final(self)@ == (HartState { host: Seq::empty(), ..old(self)@ }),
    {
        self.hart.take_host_calls()
    }
}

/// A processor of the RV64I instruction set.
pub struct RV64I {
    hart: Hart,
    float_ext: Option<FloatExt>,
    dram_mapping: Range<u64>,
}

impl View for RV64I {
    type V = HartState;

    closed spec fn view(&self) -> HartState {
        self.hart@
    }
}

impl RV64I {
    pub const ISA_ID: &'static str = "RV64I";

    /// The DRAM range the processor resets to.
    pub closed spec fn dram(&self) -> (u64, u64) {
        (self.dram_mapping.start, self.dram_mapping.end)
    }

    /// What the contracts of a working RV64I rely on.
    pub open spec fn wf(&self) -> bool {
        &&& state_wf(self@)
        &&& self@.xlen == 64
        &&& self@.regs.len() == 32
        &&& self.dram().0 <= self.dram().1
        &&& is_word(64, self.dram().0)
        &&& is_word(64, self.dram().1)
    }

    /// The executor of this instruction set.
    pub open spec fn exec_spec(&self) -> spec_fn(HartState, u32) -> (Result<(), CPUError>, HartState) {
        |s: HartState, insn: u32| execute_spec(s, insn)
    }

    /// A processor on `bus`, reset to `dram_mapping`.
    pub fn new(bus: Bus, dram_mapping: Range<u64>, float_ext: Option<FloatExt>) -> (r: RV64I)
        requires
            bus.inv(),
            dram_mapping.start <= dram_mapping.end,
            is_word(64, dram_mapping.start),
            is_word(64, dram_mapping.end),
        ensures
            r.wf(),
            r.dram() == (dram_mapping.start, dram_mapping.end),
            is_reset(r@, dram_mapping.start, dram_mapping.end),
            r@.mem == bus@,
            r@.host == Seq::<HostCall>::empty(),
    {
        let hart = Hart::new(64, 32, bus, dram_mapping.start, dram_mapping.end);
        RV64I { hart, float_ext, dram_mapping }
    }

    /// A processor whose DRAM (128 MiB at `DRAM_BASE`) starts with `code`.
    pub fn with_code(code: &[u8], float_ext: Option<FloatExt>) -> (r: RV64I)
        requires
            code@.len() <= DRAM_SIZE,
        ensures
            r.wf(),
            r.dram() == (DRAM_BASE, (DRAM_BASE + DRAM_SIZE) as u64),
            is_reset(r@, DRAM_BASE, (DRAM_BASE + DRAM_SIZE) as u64),
            r@.mem == program_map(code@),
            r@.host == Seq::<HostCall>::empty(),
    {
        let bus = program_bus(code);
        RV64I::new(bus, DRAM_BASE..DRAM_BASE + DRAM_SIZE, float_ext)
    }

    pub fn isa_id(&self) -> (r: &'static str)
        ensures
            r == Self::ISA_ID,
    {
        Self::ISA_ID
    }

    /// The core.
    pub fn hart(&self) -> (r: &Hart)
        ensures
            r@ == self@,
            self.wf() ==> r.wf(),
    {
        &self.hart
    }

    /// Fetches, advances the program counter by 4, and executes.
    pub fn cycle(&mut self) -> (r: Result<(), CPUError>)
        requires
            old(self).wf(),
        ensures
            final(self).wf(),
            final(self).dram() == old(self).dram(),
            (r, final(self)@) == cycle_with(old(self)@, old(self).exec_spec()),
    {
        let instruction = match self.fetch() {
            Ok(w) => w,
            Err(e) => return Err(e),
        };
        self.hart.advance_pc();
        self.execute(instruction)
    }

    /// Executes `instruction`; the program counter already points past it.
    pub fn execute(&mut self, instruction: u32) -> (r: Result<(), CPUError>)
        requires
            old(self).wf(),
        ensures
            final(self).wf(),
            final(self).dram() == old(self).dram(),
            (r, final(self)@) == (old(self).exec_spec())(old(self)@, instruction),
    {
        proof {
            lemma_failed_execute_keeps_state(self@, instruction);
        }
        let r = self.hart.execute(instruction);
        match r {
            Err(CPUError::InstructionNotImplemented(_)) => {
                match self.float_ext {
                    Some(f) => f.execute(&mut self.hart, instruction),
                    None => r,
                }
            },
            _ => r,
        }
    }

    /// The instruction word at the program counter.
    pub fn fetch(&self) -> (r: Result<u32, CPUError>)
        requires
            self.wf(),
        ensures
            r == map_ok(bus_read(self@.mem, self@.pc, 4), |v: u128| v as u32),
    {
        self.hart.fetch()
    }

    /// Puts the program counter at the start of DRAM and the stack pointer
    /// at its end, and clears the other registers.
    pub fn reset(&mut self)
        requires
            old(self).wf(),
        ensures
            final(self).wf(),
            final(self).dram() == old(self).dram(),
            is_reset(final(self)@, old(self).dram().0, old(self).dram().1),
            final(self)@.mem == old(self)@.mem,
            final(self)@.host == old(self)@.host,
    {
        self.hart.reset(self.dram_mapping.start, self.dram_mapping.end);
    }

    /// The program counter and every register.
    pub fn dump_registers(&self) -> (r: RegisterDump)
        ensures
            r@.0 == Some(self@.pc),
            r@.1.len() == self@.regs.len(),
            forall|i: int| 0 <= i < self@.regs.len() ==> r@.1[i] == Some(self@.regs[i]),
    {
        RegisterDump::new(self.hart.pc(), self.hart.registers())
    }

    /// A copy of DRAM.
    pub fn dump_memory(&self) -> (r: Result<Vec<u8>, CPUError>)
        requires
            self.wf(),
        ensures
            r matches Ok(v) ==> bus_data(self@.mem, self.dram().0, self.dram().1) == Ok::<Seq<u8>, CPUError>(v@),
            r matches Err(e) ==> bus_data(self@.mem, self.dram().0, self.dram().1) == Err::<Seq<u8>, CPUError>(e),
    {
        self.hart.bus().get_data(self.dram_mapping.start..self.dram_mapping.end)
    }

    /// The requests for the host that the program made since the last call.
    pub fn take_host_calls(&mut self) -> (r: Vec<HostCall>)
        requires
            old(self).wf(),
        ensures
            final(self).wf(),
            final(self).dram() == old(self).dram(),
            r@ == old(self)@.host,
            final(self)@ == (HartState { host: Seq::empty(), ..old(self)@ }),
    {
        self.hart.take_host_calls()
    }
}

} // verus!
