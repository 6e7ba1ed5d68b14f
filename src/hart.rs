//! One hardware thread: program counter, register file and bus, and the
//! semantics of every base-integer instruction.
use vstd::arithmetic::power2::pow2;
use vstd::prelude::*;

use crate::alu::{alu, alu32, alu32_exec, alu_exec};
use crate::bus::{bus_read, bus_store, lemma_bus_read_bound, map_wf, Bus, RegionView};
use crate::bytes::{lemma_pow256_values, pow256};
use crate::decode::{decode, decode_insn, instr_wf, lemma_decode_wf, BranchCond, Instr};
use crate::error::CPUError;
use crate::memory::Memory;
use crate::word::{add_word, is_word, lt_signed, modulus, sign_extend, signed, sub_word, valid_xlen, word};

verus! {

/// A request from the running program to the host.
#[derive(Clone, Copy, Debug, PartialEq, Eq, Structural)]
pub enum HostCall {
    /// Print this byte to standard output.
    PutChar(u8),
    /// Show the machine state.
    DumpState,
}

/// The machine state as the contracts see it.
pub struct HartState {
    pub xlen: u32,
    pub pc: u64,
    pub regs: Seq<u64>,
    pub mem: Seq<RegionView>,
    pub host: Seq<HostCall>,
}

/// Register width 32 or 64, 16 or 32 registers with x0 at zero, every
/// register and the program counter a word, and a well-formed address map.
pub open spec fn state_wf(s: HartState) -> bool {
    &&& valid_xlen(s.xlen)
    &&& s.regs.len() == 16 || s.regs.len() == 32
    &&& s.regs[0] == 0
    &&& forall|i: int| 0 <= i < s.regs.len() ==> is_word(s.xlen, #[trigger] s.regs[i])
    &&& is_word(s.xlen, s.pc)
    &&& map_wf(s.mem)
}

/// Writing `v` to register `rd`; writes to x0 are discarded.
pub open spec fn set_reg(regs: Seq<u64>, rd: usize, v: u64) -> Seq<u64> {
    if rd == 0 {
        regs
    } else {
        regs.update(rd as int, v)
    }
}

pub open spec fn branch_taken(xlen: u32, cond: BranchCond, a: u64, b: u64) -> bool {
    match cond {
        BranchCond::Eq => a == b,
        BranchCond::Ne => a != b,
        BranchCond::Lt => signed(xlen, a) < signed(xlen, b),
        BranchCond::Ge => signed(xlen, a) >= signed(xlen, b),
        BranchCond::Ltu => a < b,
        BranchCond::Geu => a >= b,
    }
}

/// The register value of a `width`-byte load that read `v`.
pub open spec fn load_value(xlen: u32, v: u128, width: u64, sx: bool) -> u64 {
    let bits = (8 * width) as nat;
    if sx && v >= pow2((bits - 1) as nat) {
        word(xlen, v - pow2(bits))
    } else {
        v as u64
    }
}

/// Every register that `i` names is below `n`.
pub open spec fn regs_in(i: Instr, n: nat) -> bool {
    match i {
        Instr::Lui { rd, .. } => rd < n,
        Instr::Auipc { rd, .. } => rd < n,
        Instr::Jal { rd, .. } => rd < n,
        Instr::Jalr { rd, rs1, .. } => rd < n && rs1 < n,
        Instr::Branch { rs1, rs2, .. } => rs1 < n && rs2 < n,
        Instr::Load { rd, rs1, .. } => rd < n && rs1 < n,
        Instr::Store { rs1, rs2, .. } => rs1 < n && rs2 < n,
        Instr::OpImm { rd, rs1, .. } => rd < n && rs1 < n,
        Instr::Op { rd, rs1, rs2, .. } => rd < n && rs1 < n && rs2 < n,
        Instr::OpImm32 { rd, rs1, .. } => rd < n && rs1 < n,
        Instr::Op32 { rd, rs1, rs2, .. } => rd < n && rs1 < n && rs2 < n,
        _ => true,
    }
}

/// The effect of the decoded instruction `i` on `s`. `s.pc` already points
/// past the instruction, so targets are computed from `s.pc - 4`.
pub open spec fn exec_instr(s: HartState, i: Instr) -> (Result<(), CPUError>, HartState) {
    let xlen = s.xlen;
    let x = s.regs;
    match i {
        Instr::Halt => (Err(CPUError::Halt), s),
        Instr::Dump => (Ok(()), HartState { host: s.host.push(HostCall::DumpState), ..s }),
        Instr::PutChar => (
            Ok(()),
            HartState { host: s.host.push(HostCall::PutChar((x[10] % 256) as u8)), ..s },
        ),
        Instr::Lui { rd, imm } => (Ok(()), HartState { regs: set_reg(x, rd, imm), ..s }),
        Instr::Auipc { rd, imm } => (
            Ok(()),
            HartState { regs: set_reg(x, rd, word(xlen, s.pc - 4 + imm)), ..s },
        ),
        Instr::Jal { rd, offset } => (
            Ok(()),
            HartState { pc: word(xlen, s.pc - 4 + offset), regs: set_reg(x, rd, s.pc), ..s },
        ),
        Instr::Jalr { rd, rs1, offset } => {
            let t = word(xlen, x[rs1 as int] + offset);
            (Ok(()), HartState { pc: (t - t % 2) as u64, regs: set_reg(x, rd, s.pc), ..s })
        },
        Instr::Branch { cond, rs1, rs2, offset } => {
            if branch_taken(xlen, cond, x[rs1 as int], x[rs2 as int]) {
                (Ok(()), HartState { pc: word(xlen, s.pc - 4 + offset), ..s })
            } else {
                (Ok(()), s)
            }
        },
        Instr::Load { rd, rs1, offset, width, sext } => {
            match bus_read(s.mem, word(xlen, x[rs1 as int] + offset), width as nat) {
                Ok(v) => (
                    Ok(()),
                    HartState { regs: set_reg(x, rd, load_value(xlen, v, width, sext)), ..s },
                ),
                Err(e) => (Err(e), s),
            }
        },
        Instr::Store { rs1, rs2, offset, width } => {
            let (r, mem) = bus_store(
                s.mem,
                word(xlen, x[rs1 as int] + offset),
                width as nat,
                x[rs2 as int] as nat % pow256(width as nat),
            );
            (r, HartState { mem, ..s })
        },
        Instr::OpImm { op, rd, rs1, imm } => (
            Ok(()),
            HartState { regs: set_reg(x, rd, alu(xlen, op, x[rs1 as int], imm)), ..s },
        ),
        Instr::Op { op, rd, rs1, rs2 } => (
            Ok(()),
            HartState { regs: set_reg(x, rd, alu(xlen, op, x[rs1 as int], x[rs2 as int])), ..s },
        ),
        Instr::OpImm32 { op, rd, rs1, imm } => (
            Ok(()),
            HartState { regs: set_reg(x, rd, alu32(op, x[rs1 as int], imm)), ..s },
        ),
        Instr::Op32 { op, rd, rs1, rs2 } => (
            Ok(()),
            HartState { regs: set_reg(x, rd, alu32(op, x[rs1 as int], x[rs2 as int])), ..s },
        ),
    }
}

/// Executing the word `insn` on `s` with the base instruction set.
pub open spec fn execute_spec(s: HartState, insn: u32) -> (Result<(), CPUError>, HartState) {
    match decode(s.xlen, insn) {
        Some(i) => if regs_in(i, s.regs.len()) {
            exec_instr(s, i)
        } else {
            (Err(CPUError::InstructionNotImplemented(insn)), s)
        },
        None => (Err(CPUError::InstructionNotImplemented(insn)), s),
    }
}

/// An instruction that fails leaves the machine as it was.
pub proof fn lemma_failed_execute_keeps_state(s: HartState, insn: u32)
    requires
        state_wf(s),
    ensures
        execute_spec(s, insn).0 is Err ==> execute_spec(s, insn).1 == s,
{
    if let Some(i) = decode(s.xlen, insn) {
        if let Instr::Store { rs1, rs2, offset, width } = i {
            let addr = word(s.xlen, s.regs[rs1 as int] + offset);
            let v = s.regs[rs2 as int] as nat % pow256(width as nat);
            if let Some(k) = crate::bus::region_of(s.mem, addr) {
                let (r, bytes) = crate::dram::store_outcome(s.mem[k].2, (addr - s.mem[k].0) as u64, width as nat, v);
                if r is Err {
                    assert(s.mem.update(k, (s.mem[k].0, s.mem[k].1, bytes)) =~= s.mem);
                }
            }
        }
    }
}

/// One cycle: fetch the word at the program counter, move the program
/// counter past it, and run `exec` on it. A failed fetch changes nothing.
pub open spec fn cycle_with(
    s: HartState,
    exec: spec_fn(HartState, u32) -> (Result<(), CPUError>, HartState),
) -> (Result<(), CPUError>, HartState) {
    match bus_read(s.mem, s.pc, 4) {
        Ok(w) => exec(advance(s), w as u32),
        Err(e) => (Err(e), s),
    }
}

/// `s` with the program counter moved to the next instruction.
pub open spec fn advance(s: HartState) -> HartState {
    HartState { pc: word(s.xlen, s.pc + 4), ..s }
}

/// Extends the `width`-byte value `v` to a register value.
fn load_extend(xlen: u32, v: u128, width: u64, sx: bool) -> (r: u64)
    requires
        valid_xlen(xlen),
        width == 1 || width == 2 || width == 4 || (width == 8 && xlen == 64),
        v < pow256(width as nat),
    ensures
        r == load_value(xlen, v, width, sx),
        is_word(xlen, r),
{
    proof {
        lemma_pow256_values();
        vstd::arithmetic::power2::lemma2_to64();
        vstd::arithmetic::power2::lemma2_to64_rest();
    }
    if sx && 8 * width < xlen as u64 {
        sign_extend(xlen, v as u64, (8 * width) as u32)
    } else {
        v as u64
    }
}

/// `word` of a word plus `b` is `word` of the sum.
proof fn lemma_word_add(xlen: u32, a: int, b: int)
    requires
        valid_xlen(xlen),
    ensures
        word(xlen, word(xlen, a) + b) == word(xlen, a + b),
{
    vstd::arithmetic::div_mod::lemma_add_mod_noop(a, b, modulus(xlen));
    vstd::arithmetic::div_mod::lemma_add_mod_noop(word(xlen, a) as int, b, modulus(xlen));
}

/// A processor core: program counter, registers and the bus they reach.
pub struct Hart {
    xlen: u32,
    pc: u64,
    registers: Vec<u64>,
    bus: Bus,
    host_calls: Vec<HostCall>,
}

impl View for Hart {
    type V = HartState;

    closed spec fn view(&self) -> HartState {
        HartState {
            xlen: self.xlen,
            pc: self.pc,
            regs: self.registers@,
            mem: self.bus@,
            host: self.host_calls@,
        }
    }
}

impl Hart {
    pub open spec fn wf(&self) -> bool {
        state_wf(self@)
    }

    /// A core of width `xlen` with `reg_count` registers, all zero but the
    /// stack pointer, which holds `sp`; execution starts at `pc`.
    pub fn new(xlen: u32, reg_count: usize, bus: Bus, pc: u64, sp: u64) -> (r: Hart)
        requires
            valid_xlen(xlen),
            reg_count == 16 || reg_count == 32,
            bus.inv(),
            is_word(xlen, pc),
            is_word(xlen, sp),
        ensures
            r.wf(),
            r@.xlen == xlen,
            r@.pc == pc,
            r@.regs.len() == reg_count,
            forall|i: int| 0 <= i < reg_count ==> #[trigger] r@.regs[i] == if i == 2 {
                sp
            } else {
                0
            },
            r@.mem == bus@,
            r@.host == Seq::<HostCall>::empty(),
    {
        let mut registers: Vec<u64> = Vec::new();
        let mut i: usize = 0;
        while i < reg_count
            invariant
                i <= reg_count,
                registers@.len() == i,
                forall|j: int| 0 <= j < i ==> #[trigger] registers@[j] == if j == 2 {
                    sp
                } else {
                    0
                },
            decreases reg_count - i,
        {
            if i == 2 {
                registers.push(sp);
            } else {
                registers.push(0);
            }
            i = i + 1;
        }
        Hart { xlen, pc, registers, bus, host_calls: Vec::new() }
    }

    pub fn xlen(&self) -> (r: u32)
        ensures
            r == self@.xlen,
    {
        self.xlen
    }

    pub fn pc(&self) -> (r: u64)
        ensures
            r == self@.pc,
    {
        self.pc
    }

    /// The register file, x0 first.
    pub fn registers(&self) -> (r: &Vec<u64>)
        ensures
            r@ == self@.regs,
    {
        &self.registers
    }

    pub fn bus(&self) -> (r: &Bus)
        ensures
            r@ == self@.mem,
            self.wf() ==> r.inv(),
    {
        &self.bus
    }

    /// Register `i`; x0 reads as zero.
    pub fn read_reg(&self, i: usize) -> (r: u64)
        requires
            self.wf(),
            i < self@.regs.len(),
        ensures
            r == self@.regs[i as int],
            i == 0 ==> r == 0,
    {
        self.registers[i]
    }

    pub(crate) fn write_reg(&mut self, rd: usize, v: u64)
        requires
            old(self).wf(),
            rd < old(self)@.regs.len(),
            is_word(old(self)@.xlen, v),
        ensures
            final(self).wf(),
            final(self)@ == (HartState { regs: set_reg(old(self)@.regs, rd, v), ..old(self)@ }),
    {
        if rd != 0 {
            self.registers[rd] = v;
        }
    }

    /// The requests for the host that the program made since the last call.
    pub fn take_host_calls(&mut self) -> (r: Vec<HostCall>)
        requires
            old(self).wf(),
        ensures
            final(self).wf(),
            r@ == old(self)@.host,
            final(self)@ == (HartState { host: Seq::empty(), ..old(self)@ }),
    {
        let mut calls: Vec<HostCall> = Vec::new();
        std::mem::swap(&mut calls, &mut self.host_calls);
        calls
    }

    /// Puts the program counter at `pc` and the stack pointer at `sp`, and
    /// clears every other register.
    pub fn reset(&mut self, pc: u64, sp: u64)
        requires
            old(self).wf(),
            is_word(old(self)@.xlen, pc),
            is_word(old(self)@.xlen, sp),
        ensures
            final(self).wf(),
            final(self)@.xlen == old(self)@.xlen,
            final(self)@.pc == pc,
            final(self)@.regs.len() == old(self)@.regs.len(),
            forall|i: int| 0 <= i < final(self)@.regs.len() ==> #[trigger] final(self)@.regs[i] == if i == 2 {
                sp
            } else {
                0
            },
            final(self)@.mem == old(self)@.mem,
            final(self)@.host == old(self)@.host,
    {
        let n = self.registers.len();
        let mut i: usize = 0;
        while i < n
            invariant
                n == self@.regs.len(),
                n == old(self)@.regs.len(),
                i <= n,
                self@.xlen == old(self)@.xlen,
                self@.pc == old(self)@.pc,
                self@.mem == old(self)@.mem,
                self@.host == old(self)@.host,
                forall|j: int| 0 <= j < i ==> #[trigger] self@.regs[j] == if j == 2 {
                    sp
                } else {
                    0
                },
            decreases n - i,
        {
            if i == 2 {
                self.registers[i] = sp;
            } else {
                self.registers[i] = 0;
            }
            i = i + 1;
        }
        self.pc = pc;
    }

    /// Reads the 32-bit instruction word at the program counter.
    pub fn fetch(&self) -> (r: Result<u32, CPUError>)
        requires
            self.wf(),
        ensures
            r == crate::memory::map_ok(bus_read(self@.mem, self@.pc, 4), |v: u128| v as u32),
    {
        match self.bus.read_le(self.pc, 4) {
            Ok(v) => Ok(v as u32),
            Err(e) => Err(e),
        }
    }

    /// Executes the instruction word `insn` on the base instruction set.
    /// The program counter already points past it.
    pub fn execute(&mut self, insn: u32) -> (r: Result<(), CPUError>)
        requires
            old(self).wf(),
        ensures
            final(self).wf(),
            (r, final(self)@) == execute_spec(old(self)@, insn),
    {
        proof {
            lemma_decode_wf(self.xlen, insn);
        }
        match decode_insn(self.xlen, insn) {
            Some(i) => {
                if self.names_registers_within(i) {
                    self.exec_instr(i)
                } else {
                    Err(CPUError::InstructionNotImplemented(insn))
                }
            },
            None => Err(CPUError::InstructionNotImplemented(insn)),
        }
    }

    fn names_registers_within(&self, i: Instr) -> (r: bool)
        ensures
            r == regs_in(i, self@.regs.len()),
    {
        let n = self.registers.len();
        match i {
            Instr::Lui { rd, .. } => rd < n,
            Instr::Auipc { rd, .. } => rd < n,
            Instr::Jal { rd, .. } => rd < n,
            Instr::Jalr { rd, rs1, .. } => rd < n && rs1 < n,
            Instr::Branch { rs1, rs2, .. } => rs1 < n && rs2 < n,
            Instr::Load { rd, rs1, .. } => rd < n && rs1 < n,
            Instr::Store { rs1, rs2, .. } => rs1 < n && rs2 < n,
            Instr::OpImm { rd, rs1, .. } => rd < n && rs1 < n,
            Instr::Op { rd, rs1, rs2, .. } => rd < n && rs1 < n && rs2 < n,
            Instr::OpImm32 { rd, rs1, .. } => rd < n && rs1 < n,
            Instr::Op32 { rd, rs1, rs2, .. } => rd < n && rs1 < n && rs2 < n,
            _ => true,
        }
    }

    fn exec_instr(&mut self, i: Instr) -> (r: Result<(), CPUError>)
        requires
            old(self).wf(),
            instr_wf(old(self)@.xlen, i),
            regs_in(i, old(self)@.regs.len()),
        ensures
            final(self).wf(),
            (r, final(self)@) == exec_instr(old(self)@, i),
    {
        let xlen = self.xlen;
        match i {
            Instr::Halt => Err(CPUError::Halt),
            Instr::Dump => {
                self.host_calls.push(HostCall::DumpState);
                Ok(())
            },
            Instr::PutChar => {
                let c = (self.registers[10] % 256) as u8;
                self.host_calls.push(HostCall::PutChar(c));
                Ok(())
            },
            Instr::Lui { rd, imm } => {
                self.write_reg(rd, imm);
                Ok(())
            },
            Instr::Auipc { rd, imm } => {
                proof {
                    lemma_word_add(xlen, self.pc - 4, imm as int);
                }
                let v = add_word(xlen, sub_word(xlen, self.pc, 4), imm);
                self.write_reg(rd, v);
                Ok(())
            },
            Instr::Jal { rd, offset } => {
                proof {
                    lemma_word_add(xlen, self.pc - 4, offset as int);
                }
                let next = self.pc;
                let target = add_word(xlen, sub_word(xlen, self.pc, 4), offset);
                self.write_reg(rd, next);
                self.pc = target;
                Ok(())
            },
            Instr::Jalr { rd, rs1, offset } => {
                let next = self.pc;
                let t = add_word(xlen, self.registers[rs1], offset);
                self.write_reg(rd, next);
                self.pc = t - t % 2;
                Ok(())
            },
            Instr::Branch { cond, rs1, rs2, offset } => {
                let a = self.registers[rs1];
                let b = self.registers[rs2];
                let taken = match cond {
                    BranchCond::Eq => a == b,
                    BranchCond::Ne => a != b,
                    BranchCond::Lt => lt_signed(xlen, a, b),
                    BranchCond::Ge => !lt_signed(xlen, a, b),
                    BranchCond::Ltu => a < b,
                    BranchCond::Geu => a >= b,
                };
                if taken {
                    proof {
                        lemma_word_add(xlen, self.pc - 4, offset as int);
                    }
                    self.pc = add_word(xlen, sub_word(xlen, self.pc, 4), offset);
                }
                Ok(())
            },
            Instr::Load { rd, rs1, offset, width, sext } => self.exec_load(rd, rs1, offset, width, sext),
            Instr::Store { rs1, rs2, offset, width } => self.exec_store(rs1, rs2, offset, width),
            Instr::OpImm { op, rd, rs1, imm } => {
                let v = alu_exec(xlen, op, self.registers[rs1], imm);
                self.write_reg(rd, v);
                Ok(())
            },
            Instr::Op { op, rd, rs1, rs2 } => {
                let v = alu_exec(xlen, op, self.registers[rs1], self.registers[rs2]);
                self.write_reg(rd, v);
                Ok(())
            },
            Instr::OpImm32 { op, rd, rs1, imm } => {
                let v = alu32_exec(op, self.registers[rs1], imm);
                self.write_reg(rd, v);
                Ok(())
            },
            Instr::Op32 { op, rd, rs1, rs2 } => {
                let v = alu32_exec(op, self.registers[rs1], self.registers[rs2]);
                self.write_reg(rd, v);
                Ok(())
            },
        }
    }

    fn exec_load(&mut self, rd: usize, rs1: usize, offset: u64, width: u64, sx: bool) -> (r: Result<
        (),
        CPUError,
    >)
        requires
            old(self).wf(),
            instr_wf(old(self)@.xlen, Instr::Load { rd, rs1, offset, width, sext: sx }),
            rd < old(self)@.regs.len(),
            rs1 < old(self)@.regs.len(),
        ensures
            final(self).wf(),
            (r, final(self)@) == exec_instr(old(self)@, Instr::Load { rd, rs1, offset, width, sext: sx }),
    {
        let addr = add_word(self.xlen, self.registers[rs1], offset);
        proof {
            lemma_bus_read_bound(self.bus@, addr, width as nat);
        }
        match self.bus.read_le(addr, width) {
            Ok(v) => {
                let value = load_extend(self.xlen, v, width, sx);
                self.write_reg(rd, value);
                Ok(())
            },
            Err(e) => Err(e),
        }
    }

    fn exec_store(&mut self, rs1: usize, rs2: usize, offset: u64, width: u64) -> (r: Result<(), CPUError>)
        requires
            old(self).wf(),
            instr_wf(old(self)@.xlen, Instr::Store { rs1, rs2, offset, width }),
            rs1 < old(self)@.regs.len(),
            rs2 < old(self)@.regs.len(),
        ensures
            final(self).wf(),
            (r, final(self)@) == exec_instr(old(self)@, Instr::Store { rs1, rs2, offset, width }),
    {
        proof {
            lemma_pow256_values();
        }
        let addr = add_word(self.xlen, self.registers[rs1], offset);
        let x = self.registers[rs2];
        let value: u128 = if width == 1 {
            (x % 0x100) as u128
        } else if width == 2 {
            (x % 0x1_0000) as u128
        } else if width == 4 {
            (x % 0x1_0000_0000) as u128
        } else {
            proof {
                vstd::arithmetic::div_mod::lemma_small_mod(x as nat, pow256(8));
            }
            x as u128
        };
        assert(value as nat == x as nat % pow256(width as nat));
        self.bus.write_le(addr, width, value)
    }

    /// Moves the program counter to the next instruction.
    pub fn advance_pc(&mut self)
        requires
            old(self).wf(),
        ensures
            final(self).wf(),
            final(self)@ == advance(old(self)@),
    {
        self.pc = add_word(self.xlen, self.pc, 4);
    }
}

} // verus!
