//! Properties of the emulator that hold for all inputs.
use vstd::prelude::*;

use crate::alu::{alu, alu32, is_word_op};
use crate::bus::{bus_read, bus_store, holds, lemma_region_unique, map_wf, region_of, RegionView};
use crate::bytes::{le_bytes, lemma_le_round_trip, lemma_pow256_mono, lemma_pow256_positive, lemma_pow256_values, pow256};
use crate::decode::{decode, funct3, opcode, rd_field, rs1_field, rs2_field, imm_b, imm_i, imm_j, imm_s, imm_u, imm_b_raw, imm_i_raw, imm_j_raw, imm_s_raw, imm_u_raw, lemma_decode_wf, AluOp, BranchCond, Instr};
use crate::dram::splice;
use crate::error::CPUError;
use crate::ext::mul_spec;
use crate::hart::{branch_taken, cycle_with, exec_instr, execute_spec, state_wf, HartState};
use crate::word::{modulus, valid_xlen, word};

verus! {

/// Register x0 reads zero after any instruction, with or without the
/// multiply extension, and the register file keeps its size.
pub proof fn lemma_x0_stays_zero(s: HartState, insn: u32)
    requires
        state_wf(s),
    ensures
        execute_spec(s, insn).1.regs.len() == s.regs.len(),
        execute_spec(s, insn).1.regs[0] == 0,
        mul_spec(s, insn).1.regs.len() == s.regs.len(),
        mul_spec(s, insn).1.regs[0] == 0,
{
    lemma_decode_wf(s.xlen, insn);
}

/// After an instruction that is neither a jump nor a branch, the program
/// counter is the one of the cycle before plus 4, whether the instruction
/// succeeded or not.
pub proof fn lemma_straight_line_pc(s: HartState)
    requires
        state_wf(s),
        bus_read(s.mem, s.pc, 4) matches Ok(w) && decode(s.xlen, w as u32) matches Some(i) && !(
        i is Jal || i is Jalr || i is Branch),
    ensures
        cycle_with(s, |t: HartState, insn: u32| execute_spec(t, insn)).1.pc == word(s.xlen, s.pc + 4),
{
}

/// A store followed by a load of the same width at the same address yields
/// the stored value, cut to that width.
pub proof fn lemma_store_load_round_trip(map: Seq<RegionView>, addr: u64, n: nat, v: nat)
    requires
        map_wf(map),
        1 <= n <= 16,
        bus_store(map, addr, n, v).0 is Ok,
    ensures
        bus_read(bus_store(map, addr, n, v).1, addr, n) == Ok::<u128, CPUError>((v % pow256(n)) as u128),
{
    let k = region_of(map, addr)->Some_0;
    let after = bus_store(map, addr, n, v).1;
    assert(holds(after, k, addr));
    let j = choose|j: int| holds(after, j, addr);
    assert(holds(map, j, addr));
    lemma_region_unique(map, j, k, addr);
    let off = (addr - map[k].0) as u64;
    let bytes = splice(map[k].2, off as int, le_bytes(v, n));
    assert(bytes.subrange(off as int, off + n) =~= le_bytes(v, n));
    lemma_le_round_trip(v, n);
    lemma_pow256_positive(n);
    lemma_pow256_mono(n, 16);
    lemma_pow256_values();
}

/// A store of `n` bytes of a value that fits them as a signed number,
/// followed by a load of `n` bytes at the same address, read as signed,
/// yields the value.
pub proof fn lemma_signed_round_trip(map: Seq<RegionView>, addr: u64, n: nat, v: int)
    requires
        map_wf(map),
        n == 1 || n == 2 || n == 4 || n == 8 || n == 16,
        -(pow256(n) / 2) <= v < pow256(n) / 2,
        bus_store(map, addr, n, (v % pow256(n) as int) as nat).0 is Ok,
    ensures
        bus_read(bus_store(map, addr, n, (v % pow256(n) as int) as nat).1, addr, n) matches Ok(x) && (
        if x >= pow256(n) / 2 {
            x - pow256(n)
        } else {
            x as int
        }) == v,
{
    let p = pow256(n) as int;
    let u = (v % p) as nat;
    lemma_pow256_positive(n);
    if v < 0 {
        vstd::arithmetic::div_mod::lemma_mod_add_multiples_vanish(v, p);
        vstd::arithmetic::div_mod::lemma_small_mod((p + v) as nat, p as nat);
        assert(u == p + v);
    } else {
        vstd::arithmetic::div_mod::lemma_small_mod(v as nat, p as nat);
    }
    lemma_store_load_round_trip(map, addr, n, u);
    vstd::arithmetic::div_mod::lemma_small_mod(u, pow256(n));
    lemma_pow256_values();
}

proof fn lemma_signed_reinterpret(v: i32)
    by (bit_vector)
    ensures
        v as u32 as i32 == v,
{
}

/// A signed 32-bit store followed by a signed 32-bit load at the same
/// address yields the stored value.
pub proof fn lemma_signed_word_round_trip(map: Seq<RegionView>, addr: u64, v: i32)
    requires
        map_wf(map),
        bus_store(map, addr, 4, v as u32 as nat).0 is Ok,
    ensures
        crate::memory::map_ok(
            bus_read(bus_store(map, addr, 4, v as u32 as nat).1, addr, 4),
            |x: u128| x as u32 as i32,
        ) == Ok::<i32, CPUError>(v),
{
    lemma_store_load_round_trip(map, addr, 4, v as u32 as nat);
    lemma_pow256_values();
    vstd::arithmetic::div_mod::lemma_small_mod(v as u32 as nat, pow256(4));
    lemma_signed_reinterpret(v);
}

/// SW x1, 0(x2)
pub const STORE_WORD_X1_AT_X2: u32 = 0x0011_2023;

/// LW x3, 0(x2)
pub const LOAD_WORD_X3_FROM_X2: u32 = 0x0001_2183;

/// On RV32, `SW x1, 0(x2)` followed by `LW x3, 0(x2)` leaves x3 equal to
/// x1 whenever the store succeeds.
pub proof fn lemma_store_word_then_load_word(s: HartState)
    requires
        state_wf(s),
        s.xlen == 32,
        s.regs.len() == 32,
        execute_spec(s, STORE_WORD_X1_AT_X2).0 is Ok,
    ensures
        execute_spec(execute_spec(s, STORE_WORD_X1_AT_X2).1, LOAD_WORD_X3_FROM_X2).0 is Ok,
        execute_spec(execute_spec(s, STORE_WORD_X1_AT_X2).1, LOAD_WORD_X3_FROM_X2).1.regs[3] == s.regs[1],
{
    assert({
        let sw = 0x0011_2023u32;
        let lw = 0x0001_2183u32;
        &&& opcode(sw) == 0x23 && funct3(sw) == 2 && rs1_field(sw) == 2 && rs2_field(sw) == 1
        &&& imm_s_raw(sw) == 0
        &&& opcode(lw) == 0x03 && funct3(lw) == 2 && rs1_field(lw) == 2 && rd_field(lw) == 3
        &&& imm_i_raw(lw) == 0
    }) by (bit_vector);
    vstd::arithmetic::power2::lemma2_to64();
    assert(decode(32, STORE_WORD_X1_AT_X2) == Some(Instr::Store { rs1: 2, rs2: 1, offset: 0, width: 4 }));
    assert(decode(32, LOAD_WORD_X3_FROM_X2) == Some(Instr::Load { rd: 3, rs1: 2, offset: 0, width: 4, sext: true }));
    let addr = word(32, s.regs[2] + 0);
    let v = s.regs[1] as nat % pow256(4);
    lemma_pow256_values();
    lemma_store_load_round_trip(s.mem, addr, 4, v);
    vstd::arithmetic::div_mod::lemma_small_mod(s.regs[1] as nat, pow256(4));
    vstd::arithmetic::power2::lemma2_to64();
}

/// BEQ branches exactly when the operands are equal, and BNE exactly when
/// BEQ does not.
pub proof fn lemma_branch_symmetry(xlen: u32, a: u64, b: u64)
    ensures
        branch_taken(xlen, BranchCond::Eq, a, b) <==> a == b,
        branch_taken(xlen, BranchCond::Ne, a, b) <==> !branch_taken(xlen, BranchCond::Eq, a, b),
{
}

/// Shifts read only the low log2(xlen) bits of the shift operand.
pub proof fn lemma_shift_amount_masked(xlen: u32, op: AluOp, a: u64, b1: u64, b2: u64)
    requires
        valid_xlen(xlen),
        op == AluOp::Sll || op == AluOp::Srl || op == AluOp::Sra,
        b1 % (xlen as u64) == b2 % (xlen as u64),
    ensures
        alu(xlen, op, a, b1) == alu(xlen, op, a, b2),
{
}

proof fn lemma_top_bit_fields(insn: u32)
    by (bit_vector)
    requires
        insn >= 0x8000_0000,
    ensures
        imm_i_raw(insn) >= 0x800,
        imm_s_raw(insn) >= 0x800,
        imm_b_raw(insn) >= 0x1000,
        imm_j_raw(insn) >= 0x10_0000,
        imm_u_raw(insn) >= 0x8000_0000,
        imm_i_raw(insn) < 0x1000,
        imm_s_raw(insn) < 0x1000,
        imm_b_raw(insn) < 0x2000,
        imm_j_raw(insn) < 0x20_0000,
{
}

/// When bit 31 of the instruction is set, every immediate has all bits set
/// from its sign position up to the register width.
pub proof fn lemma_immediates_sign_extend(xlen: u32, insn: u32)
    requires
        valid_xlen(xlen),
        insn >= 0x8000_0000,
    ensures
        word(xlen, imm_i(insn)) >= modulus(xlen) - 0x800,
        word(xlen, imm_s(insn)) >= modulus(xlen) - 0x800,
        word(xlen, imm_b(insn)) >= modulus(xlen) - 0x1000,
        word(xlen, imm_j(insn)) >= modulus(xlen) - 0x10_0000,
        word(xlen, imm_u(insn)) >= modulus(xlen) - 0x8000_0000,
{
    lemma_top_bit_fields(insn);
    vstd::arithmetic::power2::lemma2_to64();
}

/// JAL and JALR write the address of the following instruction (where the
/// program counter points while they execute) to a nonzero rd.
pub proof fn lemma_jumps_link(s: HartState, i: Instr)
    requires
        state_wf(s),
        i matches Instr::Jal { rd, .. } ==> 0 < rd < s.regs.len(),
        i matches Instr::Jalr { rd, rs1, .. } ==> 0 < rd < s.regs.len() && rs1 < s.regs.len(),
        i is Jal || i is Jalr,
    ensures
        i matches Instr::Jal { rd, .. } ==> exec_instr(s, i).1.regs[rd as int] == s.pc,
        i matches Instr::Jalr { rd, .. } ==> exec_instr(s, i).1.regs[rd as int] == s.pc,
{
}

/// The RV64 word operations leave bits 63 to 32 equal to bit 31.
pub proof fn lemma_word_ops_sign_extend(op: AluOp, a: u64, b: u64)
    requires
        is_word_op(op),
    ensures
        alu32(op, a, b) < 0x8000_0000 || alu32(op, a, b) >= 0xffff_ffff_8000_0000,
{
}

} // verus!
