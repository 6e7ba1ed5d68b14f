//! Instruction-set extensions: the multiply extension and the slot for the
//! floating-point extensions.
use vstd::prelude::*;

use crate::decode::{funct3, funct7, opcode, rd_field, rs1_field, rs2_field};
use crate::error::CPUError;
use crate::hart::{set_reg, Hart, HartState};
use crate::word::word;

verus! {

/// The multiply extension (M) for RV32: MUL and MULHU. MULH, MULHSU, DIV,
/// DIVU, REM and REMU are recognized but not implemented.
#[derive(Clone, Copy, Debug, PartialEq, Eq, Structural)]
pub struct M;

/// Executing `insn` with the multiply extension on a 32-bit core.
pub open spec fn mul_spec(s: HartState, insn: u32) -> (Result<(), CPUError>, HartState) {
    let rd = rd_field(insn) as usize;
    let a = s.regs[rs1_field(insn) as int];
    let b = s.regs[rs2_field(insn) as int];
    let n = s.regs.len();
    if opcode(insn) == 0x33 && funct7(insn) == 1 && rd < n && rs1_field(insn) < n && rs2_field(insn)
        < n {
        if funct3(insn) == 0 {
            (Ok(()), HartState { regs: set_reg(s.regs, rd, word(32, a * b)), ..s })
        } else if funct3(insn) == 3 {
            (Ok(()), HartState { regs: set_reg(s.regs, rd, ((a * b) / 0x1_0000_0000) as u64), ..s })
        } else {
            (Err(CPUError::InstructionNotImplemented(insn)), s)
        }
    } else {
        (Err(CPUError::InstructionNotImplemented(insn)), s)
    }
}

impl M {
    pub const ISA_ID: &'static str = "M";

    /// Executes `insn` if it is an instruction of the extension.
    pub fn execute(cpu: &mut Hart, instruction: u32) -> (r: Result<(), CPUError>)
        requires
            old(cpu).wf(),
            old(cpu)@.xlen == 32,
        ensures
            final(cpu).wf(),
            (r, final(cpu)@) == mul_spec(old(cpu)@, instruction),
    {
        let rd = ((instruction >> 7) & 0x1f) as usize;
        let rs1 = ((instruction >> 15) & 0x1f) as usize;
        let rs2 = ((instruction >> 20) & 0x1f) as usize;
        let n = cpu.registers().len();
        if instruction & 0x7f == 0x33 && instruction >> 25 == 1 && rd < n && rs1 < n && rs2 < n {
            let a = cpu.read_reg(rs1);
            let b = cpu.read_reg(rs2);
            assert(a * b <= 0xffff_ffff * 0xffff_ffff) by (nonlinear_arith)
                requires
                    a < 0x1_0000_0000,
                    b < 0x1_0000_0000,
            ;
            let product: u64 = a * b;
            let f3 = (instruction >> 12) & 0x7;
            if f3 == 0 {
                cpu.write_reg(rd, product % 0x1_0000_0000);
                Ok(())
            } else if f3 == 3 {
                cpu.write_reg(rd, product / 0x1_0000_0000);
                Ok(())
            } else {
                Err(CPUError::InstructionNotImplemented(instruction))
            }
        } else {
            Err(CPUError::InstructionNotImplemented(instruction))
        }
    }
}

/// The floating-point extension slot. The F, D and Q payloads are not
/// implemented: each passes every instruction back to the caller.
#[derive(Clone, Copy, Debug, PartialEq, Eq, Structural)]
pub enum FloatExt {
    F,
    D,
    Q,
}

impl FloatExt {
    /// Offers `instruction` to the extension, which declines it and leaves
    /// the core as it was.
    pub fn execute(&self, cpu: &mut Hart, instruction: u32) -> (r: Result<(), CPUError>)
        ensures
            r == Err::<(), CPUError>(CPUError::InstructionNotImplemented(instruction)),
            final(cpu)@ == old(cpu)@,
    {
        Err(CPUError::InstructionNotImplemented(instruction))
    }
}

} // verus!
