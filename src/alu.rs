//! Register arithmetic: the operations of the OP, OP-IMM, OP-32 and
//! OP-IMM-32 classes.
use vstd::prelude::*;

use crate::decode::AluOp;
use crate::word::{add_word, is_word, lt_signed, sext32, signed, sub_word, valid_xlen, word};

verus! {

/// The shift amount: the low log2(xlen) bits of `b`.
pub open spec fn shamt(xlen: u32, b: u64) -> u32 {
    (b % (xlen as u64)) as u32
}

/// Logical left shift of an `xlen`-bit word.
pub open spec fn shift_left(xlen: u32, a: u64, sh: u32) -> u64 {
    if xlen == 32 {
        ((a as u32) << sh) as u64
    } else {
        a << sh
    }
}

/// Logical right shift of an `xlen`-bit word.
pub open spec fn shift_right(xlen: u32, a: u64, sh: u32) -> u64 {
    if xlen == 32 {
        ((a as u32) >> sh) as u64
    } else {
        a >> sh
    }
}

/// Arithmetic right shift of an `xlen`-bit word.
pub open spec fn shift_right_arith(xlen: u32, a: u64, sh: u32) -> u64 {
    if xlen == 32 {
        ((a as u32 as i32) >> sh) as u32 as u64
    } else {
        ((a as i64) >> sh) as u64
    }
}

/// The result of `op` on the `xlen`-bit words `a` and `b`.
pub open spec fn alu(xlen: u32, op: AluOp, a: u64, b: u64) -> u64 {
    match op {
        AluOp::Add => word(xlen, a + b),
        AluOp::Sub => word(xlen, a - b),
        AluOp::Sll => shift_left(xlen, a, shamt(xlen, b)),
        AluOp::Slt => if signed(xlen, a) < signed(xlen, b) {
            1
        } else {
            0
        },
        AluOp::Sltu => if a < b {
            1
        } else {
            0
        },
        AluOp::Xor => a ^ b,
        AluOp::Srl => shift_right(xlen, a, shamt(xlen, b)),
        AluOp::Sra => shift_right_arith(xlen, a, shamt(xlen, b)),
        AluOp::Or => a | b,
        AluOp::And => a & b,
    }
}

/// The result of the RV64 word operation `op`: the 32-bit operation on the
/// low halves, sign-extended to 64 bits.
pub open spec fn alu32(op: AluOp, a: u64, b: u64) -> u64 {
    match op {
        AluOp::Add => sext32(a + b),
        AluOp::Sub => sext32(a - b),
        AluOp::Sll => sext32(shift_left(32, a, shamt(32, b)) as int),
        AluOp::Srl => sext32(shift_right(32, a, shamt(32, b)) as int),
        AluOp::Sra => sext32(shift_right_arith(32, a, shamt(32, b)) as int),
        _ => 0,
    }
}

/// The operations that the OP-32 and OP-IMM-32 classes hold.
pub open spec fn is_word_op(op: AluOp) -> bool {
    op == AluOp::Add || op == AluOp::Sub || op == AluOp::Sll || op == AluOp::Srl || op == AluOp::Sra
}

proof fn lemma_bitwise_word(a: u64, b: u64)
    by (bit_vector)
    requires
        a < 0x1_0000_0000,
        b < 0x1_0000_0000,
    ensures
        a ^ b < 0x1_0000_0000,
        a | b < 0x1_0000_0000,
        a & b < 0x1_0000_0000,
{
}

/// Sign-extends the low 32 bits of `v` to 64 bits.
fn sign_extend32(v: u64) -> (r: u64)
    ensures
        r == sext32(v as int),
{
    let lo = v % 0x1_0000_0000;
    if lo >= 0x8000_0000 {
        lo + 0xffff_ffff_0000_0000
    } else {
        lo
    }
}

/// Executes `op` on two `xlen`-bit words.
pub fn alu_exec(xlen: u32, op: AluOp, a: u64, b: u64) -> (r: u64)
    requires
        valid_xlen(xlen),
        is_word(xlen, a),
        is_word(xlen, b),
    ensures
        r == alu(xlen, op, a, b),
        is_word(xlen, r),
{
    proof {
        if xlen == 32 {
            lemma_bitwise_word(a, b);
        }
    }
    let sh: u32 = if xlen == 32 {
        (b % 32) as u32
    } else {
        (b % 64) as u32
    };
    match op {
        AluOp::Add => add_word(xlen, a, b),
        AluOp::Sub => sub_word(xlen, a, b),
        AluOp::Sll => if xlen == 32 {
            ((a as u32) << sh) as u64
        } else {
            a << sh
        },
        AluOp::Slt => if lt_signed(xlen, a, b) {
            1
        } else {
            0
        },
        AluOp::Sltu => if a < b {
            1
        } else {
            0
        },
        AluOp::Xor => a ^ b,
        AluOp::Srl => if xlen == 32 {
            ((a as u32) >> sh) as u64
        } else {
            a >> sh
        },
        AluOp::Sra => if xlen == 32 {
            ((a as u32 as i32) >> sh) as u32 as u64
        } else {
            ((a as i64) >> sh) as u64
        },
        AluOp::Or => a | b,
        AluOp::And => a & b,
    }
}

/// Executes the RV64 word operation `op`.
pub fn alu32_exec(op: AluOp, a: u64, b: u64) -> (r: u64)
    requires
        is_word_op(op),
    ensures
        r == alu32(op, a, b),
{
    let lo_a = a % 0x1_0000_0000;
    let lo_b = b % 0x1_0000_0000;
    let sh: u32 = (b % 32) as u32;
    let v: u64 = match op {
        AluOp::Add => {
            let v = add_word(32, lo_a, lo_b);
            proof {
                vstd::arithmetic::div_mod::lemma_add_mod_noop(a as int, b as int, 0x1_0000_0000);
            }
            assert(word(32, v as int) == word(32, a + b));
            v
        },
        AluOp::Sub => {
            let v = sub_word(32, lo_a, lo_b);
            proof {
                vstd::arithmetic::div_mod::lemma_sub_mod_noop(a as int, b as int, 0x1_0000_0000);
            }
            assert(word(32, v as int) == word(32, a - b));
            v
        },
        AluOp::Sll => ((a as u32) << sh) as u64,
        AluOp::Srl => ((a as u32) >> sh) as u64,
        _ => ((a as u32 as i32) >> sh) as u32 as u64,
    };
    sign_extend32(v)
}

} // verus!
