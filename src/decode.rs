//! Bit-exact decoding of 32-bit instruction words.
use vstd::arithmetic::power2::pow2;
use vstd::prelude::*;

use crate::word::{sign_extend, valid_xlen, word};

verus! {

/// bits[6:0]
pub open spec fn opcode(insn: u32) -> u32 {
    insn & 0x7f
}

/// bits[11:7]
pub open spec fn rd_field(insn: u32) -> u32 {
    (insn >> 7) & 0x1f
}

/// bits[19:15]
pub open spec fn rs1_field(insn: u32) -> u32 {
    (insn >> 15) & 0x1f
}

/// bits[24:20]
pub open spec fn rs2_field(insn: u32) -> u32 {
    (insn >> 20) & 0x1f
}

/// bits[14:12]
pub open spec fn funct3(insn: u32) -> u32 {
    (insn >> 12) & 0x7
}

/// bits[31:25]
pub open spec fn funct7(insn: u32) -> u32 {
    insn >> 25
}

/// The I-immediate field, bits[31:20].
pub open spec fn imm_i_raw(insn: u32) -> u32 {
    insn >> 20
}

/// The S-immediate field {bits[31:25], bits[11:7]}.
pub open spec fn imm_s_raw(insn: u32) -> u32 {
    ((insn >> 25) << 5) | ((insn >> 7) & 0x1f)
}

/// The B-immediate field {bit[31], bit[7], bits[30:25], bits[11:8], 0}.
pub open spec fn imm_b_raw(insn: u32) -> u32 {
    (((insn >> 31) & 1) << 12) | (((insn >> 7) & 1) << 11) | (((insn >> 25) & 0x3f) << 5) | (((
    insn >> 8) & 0xf) << 1)
}

/// The U-immediate field {bits[31:12], 12 zero bits}.
pub open spec fn imm_u_raw(insn: u32) -> u32 {
    insn & 0xffff_f000
}

/// The J-immediate field {bit[31], bits[19:12], bit[20], bits[30:21], 0}.
pub open spec fn imm_j_raw(insn: u32) -> u32 {
    (((insn >> 31) & 1) << 20) | (((insn >> 12) & 0xff) << 12) | (((insn >> 20) & 1) << 11) | (((
    insn >> 21) & 0x3ff) << 1)
}

/// The integer that the `bits`-bit two's-complement field `v` stands for.
pub open spec fn sext(v: u32, bits: nat) -> int {
    if v >= pow2((bits - 1) as nat) {
        v - pow2(bits)
    } else {
        v as int
    }
}

pub open spec fn imm_i(insn: u32) -> int {
    sext(imm_i_raw(insn), 12)
}

pub open spec fn imm_s(insn: u32) -> int {
    sext(imm_s_raw(insn), 12)
}

pub open spec fn imm_b(insn: u32) -> int {
    sext(imm_b_raw(insn), 13)
}

pub open spec fn imm_u(insn: u32) -> int {
    sext(imm_u_raw(insn), 32)
}

pub open spec fn imm_j(insn: u32) -> int {
    sext(imm_j_raw(insn), 21)
}

proof fn lemma_field_bounds(insn: u32)
    by (bit_vector)
    ensures
        imm_i_raw(insn) < 0x1000,
        imm_s_raw(insn) < 0x1000,
        imm_b_raw(insn) < 0x2000,
        imm_j_raw(insn) < 0x20_0000,
        rd_field(insn) < 32,
        rs1_field(insn) < 32,
        rs2_field(insn) < 32,
        funct3(insn) < 8,
        funct7(insn) < 128,
        (insn >> 20) & 0x3f < 64,
{
}

/// Operations of the register-register and register-immediate classes.
#[derive(Clone, Copy, Debug, PartialEq, Eq, Structural)]
pub enum AluOp {
    Add,
    Sub,
    Sll,
    Slt,
    Sltu,
    Xor,
    Srl,
    Sra,
    Or,
    And,
}

/// Branch conditions.
#[derive(Clone, Copy, Debug, PartialEq, Eq, Structural)]
pub enum BranchCond {
    Eq,
    Ne,
    Lt,
    Ge,
    Ltu,
    Geu,
}

/// A decoded instruction. Immediates and offsets are already sign-extended
/// to the register width.
#[derive(Clone, Copy, Debug, PartialEq, Eq, Structural)]
pub enum Instr {
    /// The all-ones word: stop the machine.
    Halt,
    /// Ask the host to show the machine state.
    Dump,
    /// Ask the host to print the low byte of a0.
    PutChar,
    Lui { rd: usize, imm: u64 },
    Auipc { rd: usize, imm: u64 },
    Jal { rd: usize, offset: u64 },
    Jalr { rd: usize, rs1: usize, offset: u64 },
    Branch { cond: BranchCond, rs1: usize, rs2: usize, offset: u64 },
    /// A load of `width` bytes, sign-extended when `sext` holds.
    Load { rd: usize, rs1: usize, offset: u64, width: u64, sext: bool },
    /// A store of the `width` low bytes of rs2.
    Store { rs1: usize, rs2: usize, offset: u64, width: u64 },
    OpImm { op: AluOp, rd: usize, rs1: usize, imm: u64 },
    Op { op: AluOp, rd: usize, rs1: usize, rs2: usize },
    /// RV64 only: a 32-bit operation whose result is sign-extended.
    OpImm32 { op: AluOp, rd: usize, rs1: usize, imm: u64 },
    /// RV64 only: a 32-bit operation whose result is sign-extended.
    Op32 { op: AluOp, rd: usize, rs1: usize, rs2: usize },
}

pub open spec fn branch_cond(f3: u32) -> Option<BranchCond> {
    if f3 == 0 {
        Some(BranchCond::Eq)
    } else if f3 == 1 {
        Some(BranchCond::Ne)
    } else if f3 == 4 {
        Some(BranchCond::Lt)
    } else if f3 == 5 {
        Some(BranchCond::Ge)
    } else if f3 == 6 {
        Some(BranchCond::Ltu)
    } else if f3 == 7 {
        Some(BranchCond::Geu)
    } else {
        None
    }
}

/// Width in bytes and signedness of the load with this funct3.
pub open spec fn load_kind(xlen: u32, f3: u32) -> Option<(u64, bool)> {
    if f3 == 0 {
        Some((1, true))
    } else if f3 == 1 {
        Some((2, true))
    } else if f3 == 2 {
        Some((4, true))
    } else if f3 == 4 {
        Some((1, false))
    } else if f3 == 5 {
        Some((2, false))
    } else if f3 == 3 && xlen == 64 {
        Some((8, false))
    } else if f3 == 6 && xlen == 64 {
        Some((4, false))
    } else {
        None
    }
}

/// Width in bytes of the store with this funct3.
pub open spec fn store_width(xlen: u32, f3: u32) -> Option<u64> {
    if f3 == 0 {
        Some(1)
    } else if f3 == 1 {
        Some(2)
    } else if f3 == 2 {
        Some(4)
    } else if f3 == 3 && xlen == 64 {
        Some(8)
    } else {
        None
    }
}

/// The OP class: register-register operations selected by (funct7, funct3).
pub open spec fn op_kind(f7: u32, f3: u32) -> Option<AluOp> {
    if f7 == 0 {
        if f3 == 0 {
            Some(AluOp::Add)
        } else if f3 == 1 {
            Some(AluOp::Sll)
        } else if f3 == 2 {
            Some(AluOp::Slt)
        } else if f3 == 3 {
            Some(AluOp::Sltu)
        } else if f3 == 4 {
            Some(AluOp::Xor)
        } else if f3 == 5 {
            Some(AluOp::Srl)
        } else if f3 == 6 {
            Some(AluOp::Or)
        } else {
            Some(AluOp::And)
        }
    } else if f7 == 0x20 && f3 == 0 {
        Some(AluOp::Sub)
    } else if f7 == 0x20 && f3 == 5 {
        Some(AluOp::Sra)
    } else {
        None
    }
}

/// The OP-32 class (RV64): ADDW, SUBW, SLLW, SRLW, SRAW.
pub open spec fn op32_kind(f7: u32, f3: u32) -> Option<AluOp> {
    if f7 == 0 && f3 == 0 {
        Some(AluOp::Add)
    } else if f7 == 0x20 && f3 == 0 {
        Some(AluOp::Sub)
    } else if f7 == 0 && f3 == 1 {
        Some(AluOp::Sll)
    } else if f7 == 0 && f3 == 5 {
        Some(AluOp::Srl)
    } else if f7 == 0x20 && f3 == 5 {
        Some(AluOp::Sra)
    } else {
        None
    }
}

/// The OP-IMM class. Shift amounts take bits[24:20] on RV32 and bits[25:20]
/// on RV64, where funct6 (bits[31:26]) selects the shift.
pub open spec fn op_imm_decode(xlen: u32, insn: u32) -> Option<Instr> {
    let rd = rd_field(insn) as usize;
    let rs1 = rs1_field(insn) as usize;
    let f3 = funct3(insn);
    let imm = word(xlen, imm_i(insn));
    if f3 == 1 || f3 == 5 {
        let shamt: u64 = if xlen == 32 {
            rs2_field(insn) as u64
        } else {
            ((insn >> 20) & 0x3f) as u64
        };
        // RV32 selects the shift by funct7, RV64 by funct6 (bits[31:26])
        let logical = if xlen == 32 {
            funct7(insn) == 0
        } else {
            insn >> 26 == 0
        };
        let arithmetic = if xlen == 32 {
            funct7(insn) == 0x20
        } else {
            insn >> 26 == 0x10
        };
        if logical && f3 == 1 {
            Some(Instr::OpImm { op: AluOp::Sll, rd, rs1, imm: shamt })
        } else if logical && f3 == 5 {
            Some(Instr::OpImm { op: AluOp::Srl, rd, rs1, imm: shamt })
        } else if arithmetic && f3 == 5 {
            Some(Instr::OpImm { op: AluOp::Sra, rd, rs1, imm: shamt })
        } else {
            None
        }
    } else {
        let op = if f3 == 0 {
            AluOp::Add
        } else if f3 == 2 {
            AluOp::Slt
        } else if f3 == 3 {
            AluOp::Sltu
        } else if f3 == 4 {
            AluOp::Xor
        } else if f3 == 6 {
            AluOp::Or
        } else {
            AluOp::And
        };
        Some(Instr::OpImm { op, rd, rs1, imm })
    }
}

/// The OP-IMM-32 class (RV64): ADDIW, SLLIW, SRLIW, SRAIW. The shifts need
/// bit 25 clear, which funct7 covers.
pub open spec fn op_imm32_decode(insn: u32) -> Option<Instr> {
    let rd = rd_field(insn) as usize;
    let rs1 = rs1_field(insn) as usize;
    let f3 = funct3(insn);
    let f7 = funct7(insn);
    let shamt = rs2_field(insn) as u64;
    if f3 == 0 {
        Some(Instr::OpImm32 { op: AluOp::Add, rd, rs1, imm: word(64, imm_i(insn)) })
    } else if f3 == 1 && f7 == 0 {
        Some(Instr::OpImm32 { op: AluOp::Sll, rd, rs1, imm: shamt })
    } else if f3 == 5 && f7 == 0 {
        Some(Instr::OpImm32 { op: AluOp::Srl, rd, rs1, imm: shamt })
    } else if f3 == 5 && f7 == 0x20 {
        Some(Instr::OpImm32 { op: AluOp::Sra, rd, rs1, imm: shamt })
    } else {
        None
    }
}

/// The instruction that `insn` encodes for register width `xlen`, or `None`
/// where the base decoder implements no such instruction.
pub open spec fn decode(xlen: u32, insn: u32) -> Option<Instr> {
    let rd = rd_field(insn) as usize;
    let rs1 = rs1_field(insn) as usize;
    let rs2 = rs2_field(insn) as usize;
    let f3 = funct3(insn);
    let op = opcode(insn);
    if insn == 0xffff_ffff {
        Some(Instr::Halt)
    } else if insn == 0xffff_fffe {
        Some(Instr::Dump)
    } else if insn == 0xffff_fffd {
        Some(Instr::PutChar)
    } else if op == 0x37 {
        Some(Instr::Lui { rd, imm: word(xlen, imm_u(insn)) })
    } else if op == 0x17 {
        Some(Instr::Auipc { rd, imm: word(xlen, imm_u(insn)) })
    } else if op == 0x6f {
        Some(Instr::Jal { rd, offset: word(xlen, imm_j(insn)) })
    } else if op == 0x67 {
        if f3 == 0 {
            Some(Instr::Jalr { rd, rs1, offset: word(xlen, imm_i(insn)) })
        } else {
            None
        }
    } else if op == 0x63 {
        match branch_cond(f3) {
            Some(cond) => Some(Instr::Branch { cond, rs1, rs2, offset: word(xlen, imm_b(insn)) }),
            None => None,
        }
    } else if op == 0x03 {
        match load_kind(xlen, f3) {
            Some((width, sx)) => Some(
                Instr::Load { rd, rs1, offset: word(xlen, imm_i(insn)), width, sext: sx },
            ),
            None => None,
        }
    } else if op == 0x23 {
        match store_width(xlen, f3) {
            Some(width) => Some(Instr::Store { rs1, rs2, offset: word(xlen, imm_s(insn)), width }),
            None => None,
        }
    } else if op == 0x13 {
        op_imm_decode(xlen, insn)
    } else if op == 0x33 {
        match op_kind(funct7(insn), f3) {
            Some(alu) => Some(Instr::Op { op: alu, rd, rs1, rs2 }),
            None => None,
        }
    } else if op == 0x1b && xlen == 64 {
        op_imm32_decode(insn)
    } else if op == 0x3b && xlen == 64 {
        match op32_kind(funct7(insn), f3) {
            Some(alu) => Some(Instr::Op32 { op: alu, rd, rs1, rs2 }),
            None => None,
        }
    } else {
        None
    }
}

/// Sign-extends the `bits`-bit immediate field `raw` to a word.
fn imm_word(xlen: u32, raw: u32, bits: u32) -> (r: u64)
    requires
        valid_xlen(xlen),
        bits == 12 || bits == 13 || bits == 21,
        raw < pow2(bits as nat),
    ensures
        r == word(xlen, sext(raw, bits as nat)),
{
    sign_extend(xlen, raw as u64, bits)
}

/// The U-immediate as a word.
fn imm_u_word(xlen: u32, insn: u32) -> (r: u64)
    requires
        valid_xlen(xlen),
    ensures
        r == word(xlen, imm_u(insn)),
{
    proof {
        vstd::arithmetic::power2::lemma2_to64();
    }
    let raw = insn & 0xffff_f000;
    if xlen == 32 {
        raw as u64
    } else {
        sign_extend(64, raw as u64, 32)
    }
}

fn branch_cond_of(f3: u32) -> (r: Option<BranchCond>)
    ensures
        r == branch_cond(f3),
{
    match f3 {
        0 => Some(BranchCond::Eq),
        1 => Some(BranchCond::Ne),
        4 => Some(BranchCond::Lt),
        5 => Some(BranchCond::Ge),
        6 => Some(BranchCond::Ltu),
        7 => Some(BranchCond::Geu),
        _ => None,
    }
}

fn load_kind_of(xlen: u32, f3: u32) -> (r: Option<(u64, bool)>)
    ensures
        r == load_kind(xlen, f3),
{
    match f3 {
        0 => Some((1, true)),
        1 => Some((2, true)),
        2 => Some((4, true)),
        4 => Some((1, false)),
        5 => Some((2, false)),
        3 if xlen == 64 => Some((8, false)),
        6 if xlen == 64 => Some((4, false)),
        _ => None,
    }
}

fn store_width_of(xlen: u32, f3: u32) -> (r: Option<u64>)
    ensures
        r == store_width(xlen, f3),
{
    match f3 {
        0 => Some(1),
        1 => Some(2),
        2 => Some(4),
        3 if xlen == 64 => Some(8),
        _ => None,
    }
}

fn op_kind_of(f7: u32, f3: u32) -> (r: Option<AluOp>)
    requires
        f3 < 8,
    ensures
        r == op_kind(f7, f3),
{
    match (f7, f3) {
        (0, 0) => Some(AluOp::Add),
        (0, 1) => Some(AluOp::Sll),
        (0, 2) => Some(AluOp::Slt),
        (0, 3) => Some(AluOp::Sltu),
        (0, 4) => Some(AluOp::Xor),
        (0, 5) => Some(AluOp::Srl),
        (0, 6) => Some(AluOp::Or),
        (0, _) => Some(AluOp::And),
        (0x20, 0) => Some(AluOp::Sub),
        (0x20, 5) => Some(AluOp::Sra),
        _ => None,
    }
}

fn op32_kind_of(f7: u32, f3: u32) -> (r: Option<AluOp>)
    ensures
        r == op32_kind(f7, f3),
{
    match (f7, f3) {
        (0, 0) => Some(AluOp::Add),
        (0x20, 0) => Some(AluOp::Sub),
        (0, 1) => Some(AluOp::Sll),
        (0, 5) => Some(AluOp::Srl),
        (0x20, 5) => Some(AluOp::Sra),
        _ => None,
    }
}

fn op_imm_of(xlen: u32, insn: u32) -> (r: Option<Instr>)
    requires
        valid_xlen(xlen),
    ensures
        r == op_imm_decode(xlen, insn),
{
    proof {
        lemma_field_bounds(insn);
        vstd::arithmetic::power2::lemma2_to64();
    }
    let rd = ((insn >> 7) & 0x1f) as usize;
    let rs1 = ((insn >> 15) & 0x1f) as usize;
    let f3 = (insn >> 12) & 0x7;
    if f3 == 1 || f3 == 5 {
        let shamt: u64 = if xlen == 32 {
            ((insn >> 20) & 0x1f) as u64
        } else {
            ((insn >> 20) & 0x3f) as u64
        };
        let logical = if xlen == 32 {
            insn >> 25 == 0
        } else {
            insn >> 26 == 0
        };
        let arithmetic = if xlen == 32 {
            insn >> 25 == 0x20
        } else {
            insn >> 26 == 0x10
        };
        if logical && f3 == 1 {
            Some(Instr::OpImm { op: AluOp::Sll, rd, rs1, imm: shamt })
        } else if logical && f3 == 5 {
            Some(Instr::OpImm { op: AluOp::Srl, rd, rs1, imm: shamt })
        } else if arithmetic && f3 == 5 {
            Some(Instr::OpImm { op: AluOp::Sra, rd, rs1, imm: shamt })
        } else {
            None
        }
    } else {
        let imm = imm_word(xlen, insn >> 20, 12);
        let op = match f3 {
            0 => AluOp::Add,
            2 => AluOp::Slt,
            3 => AluOp::Sltu,
            4 => AluOp::Xor,
            6 => AluOp::Or,
            _ => AluOp::And,
        };
        Some(Instr::OpImm { op, rd, rs1, imm })
    }
}

fn op_imm32_of(insn: u32) -> (r: Option<Instr>)
    ensures
        r == op_imm32_decode(insn),
{
    proof {
        lemma_field_bounds(insn);
        vstd::arithmetic::power2::lemma2_to64();
    }
    let rd = ((insn >> 7) & 0x1f) as usize;
    let rs1 = ((insn >> 15) & 0x1f) as usize;
    let f3 = (insn >> 12) & 0x7;
    let f7 = insn >> 25;
    let shamt = ((insn >> 20) & 0x1f) as u64;
    if f3 == 0 {
        Some(Instr::OpImm32 { op: AluOp::Add, rd, rs1, imm: imm_word(64, insn >> 20, 12) })
    } else if f3 == 1 && f7 == 0 {
        Some(Instr::OpImm32 { op: AluOp::Sll, rd, rs1, imm: shamt })
    } else if f3 == 5 && f7 == 0 {
        Some(Instr::OpImm32 { op: AluOp::Srl, rd, rs1, imm: shamt })
    } else if f3 == 5 && f7 == 0x20 {
        Some(Instr::OpImm32 { op: AluOp::Sra, rd, rs1, imm: shamt })
    } else {
        None
    }
}

/// Decodes `insn` for register width `xlen`.
pub fn decode_insn(xlen: u32, insn: u32) -> (r: Option<Instr>)
    requires
        valid_xlen(xlen),
    ensures
        r == decode(xlen, insn),
{
    proof {
        lemma_field_bounds(insn);
        vstd::arithmetic::power2::lemma2_to64();
    }
    let rd = ((insn >> 7) & 0x1f) as usize;
    let rs1 = ((insn >> 15) & 0x1f) as usize;
    let rs2 = ((insn >> 20) & 0x1f) as usize;
    let f3 = (insn >> 12) & 0x7;
    let op = insn & 0x7f;
    if insn == 0xffff_ffff {
        Some(Instr::Halt)
    } else if insn == 0xffff_fffe {
        Some(Instr::Dump)
    } else if insn == 0xffff_fffd {
        Some(Instr::PutChar)
    } else if op == 0x37 {
        Some(Instr::Lui { rd, imm: imm_u_word(xlen, insn) })
    } else if op == 0x17 {
        Some(Instr::Auipc { rd, imm: imm_u_word(xlen, insn) })
    } else if op == 0x6f {
        let raw = (((insn >> 31) & 1) << 20) | (((insn >> 12) & 0xff) << 12) | (((insn >> 20) & 1)
            << 11) | (((insn >> 21) & 0x3ff) << 1);
        Some(Instr::Jal { rd, offset: imm_word(xlen, raw, 21) })
    } else if op == 0x67 {
        if f3 == 0 {
            Some(Instr::Jalr { rd, rs1, offset: imm_word(xlen, insn >> 20, 12) })
        } else {
            None
        }
    } else if op == 0x63 {
        match branch_cond_of(f3) {
            Some(cond) => {
                let raw = (((insn >> 31) & 1) << 12) | (((insn >> 7) & 1) << 11) | (((insn >> 25)
                    & 0x3f) << 5) | (((insn >> 8) & 0xf) << 1);
                Some(Instr::Branch { cond, rs1, rs2, offset: imm_word(xlen, raw, 13) })
            },
            None => None,
        }
    } else if op == 0x03 {
        match load_kind_of(xlen, f3) {
            Some((width, sx)) => Some(
                Instr::Load { rd, rs1, offset: imm_word(xlen, insn >> 20, 12), width, sext: sx },
            ),
            None => None,
        }
    } else if op == 0x23 {
        match store_width_of(xlen, f3) {
            Some(width) => {
                let raw = ((insn >> 25) << 5) | ((insn >> 7) & 0x1f);
                Some(Instr::Store { rs1, rs2, offset: imm_word(xlen, raw, 12), width })
            },
            None => None,
        }
    } else if op == 0x13 {
        op_imm_of(xlen, insn)
    } else if op == 0x33 {
        match op_kind_of(insn >> 25, f3) {
            Some(alu) => Some(Instr::Op { op: alu, rd, rs1, rs2 }),
            None => None,
        }
    } else if op == 0x1b && xlen == 64 {
        op_imm32_of(insn)
    } else if op == 0x3b && xlen == 64 {
        match op32_kind_of(insn >> 25, f3) {
            Some(alu) => Some(Instr::Op32 { op: alu, rd, rs1, rs2 }),
            None => None,
        }
    } else {
        None
    }
}

/// What the decoder guarantees of an instruction: register numbers below
/// 32, immediates that are words, access widths that fit the register, and
/// word operations only where RV64 defines them.
pub open spec fn instr_wf(xlen: u32, i: Instr) -> bool {
    let w = |v: u64| crate::word::is_word(xlen, v);
    match i {
        Instr::Lui { rd, imm } => rd < 32 && w(imm),
        Instr::Auipc { rd, imm } => rd < 32 && w(imm),
        Instr::Jal { rd, offset } => rd < 32 && w(offset),
        Instr::Jalr { rd, rs1, offset } => rd < 32 && rs1 < 32 && w(offset),
        Instr::Branch { rs1, rs2, offset, .. } => rs1 < 32 && rs2 < 32 && w(offset),
        Instr::Load { rd, rs1, offset, width, .. } => rd < 32 && rs1 < 32 && w(offset) && (width == 1
            || width == 2 || width == 4 || (width == 8 && xlen == 64)),
        Instr::Store { rs1, rs2, offset, width } => rs1 < 32 && rs2 < 32 && w(offset) && (width == 1
            || width == 2 || width == 4 || (width == 8 && xlen == 64)),
        Instr::OpImm { rd, rs1, imm, .. } => rd < 32 && rs1 < 32 && w(imm),
        Instr::Op { rd, rs1, rs2, .. } => rd < 32 && rs1 < 32 && rs2 < 32,
        Instr::OpImm32 { op, rd, rs1, .. } => xlen == 64 && rd < 32 && rs1 < 32
            && crate::alu::is_word_op(op),
        Instr::Op32 { op, rd, rs1, rs2 } => xlen == 64 && rd < 32 && rs1 < 32 && rs2 < 32
            && crate::alu::is_word_op(op),
        _ => true,
    }
}

pub proof fn lemma_decode_wf(xlen: u32, insn: u32)
    requires
        valid_xlen(xlen),
    ensures
        decode(xlen, insn) matches Some(i) ==> instr_wf(xlen, i),
{
    lemma_field_bounds(insn);
}

} // verus!
