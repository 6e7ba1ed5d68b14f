//! Machine words of width 32 or 64, held in a `u64`.
use vstd::prelude::*;

verus! {

/// The register widths this emulator supports.
pub open spec fn valid_xlen(xlen: u32) -> bool {
    xlen == 32 || xlen == 64
}

/// 2 to the power `xlen`.
pub open spec fn modulus(xlen: u32) -> int {
    if xlen == 32 {
        0x1_0000_0000
    } else {
        0x1_0000_0000_0000_0000
    }
}

/// The `xlen`-bit word that stands for the integer `v` (two's complement).
pub open spec fn word(xlen: u32, v: int) -> u64 {
    (v % modulus(xlen)) as u64
}

/// The integer that the `xlen`-bit word `w` stands for when read as signed.
pub open spec fn signed(xlen: u32, w: u64) -> int {
    if w >= modulus(xlen) / 2 {
        w - modulus(xlen)
    } else {
        w as int
    }
}

/// `w` is a word of width `xlen`.
pub open spec fn is_word(xlen: u32, w: u64) -> bool {
    w < modulus(xlen)
}

/// The 64-bit word that sign-extends the low 32 bits of `v`.
pub open spec fn sext32(v: int) -> u64 {
    word(64, signed(32, word(32, v)))
}

/// Adds two words, wrapping at `2^xlen`.
pub fn add_word(xlen: u32, a: u64, b: u64) -> (r: u64)
    requires
        valid_xlen(xlen),
        is_word(xlen, a),
        is_word(xlen, b),
    ensures
        r == word(xlen, a + b),
{
    if xlen == 32 {
        let s = a + b;
        if s >= 0x1_0000_0000 {
            s - 0x1_0000_0000
        } else {
            s
        }
    } else {
        a.wrapping_add(b)
    }
}

/// Subtracts two words, wrapping at `2^xlen`.
pub fn sub_word(xlen: u32, a: u64, b: u64) -> (r: u64)
    requires
        valid_xlen(xlen),
        is_word(xlen, a),
        is_word(xlen, b),
    ensures
        r == word(xlen, a - b),
{
    if xlen == 32 {
        if a >= b {
            a - b
        } else {
            (a + 0x1_0000_0000) - b
        }
    } else {
        a.wrapping_sub(b)
    }
}

/// Signed comparison of two words.
pub fn lt_signed(xlen: u32, a: u64, b: u64) -> (r: bool)
    requires
        valid_xlen(xlen),
        is_word(xlen, a),
        is_word(xlen, b),
    ensures
        r == (signed(xlen, a) < signed(xlen, b)),
{
    let half: u64 = if xlen == 32 {
        0x8000_0000
    } else {
        0x8000_0000_0000_0000
    };
    let a_neg = a >= half;
    let b_neg = b >= half;
    if a_neg != b_neg {
        a_neg
    } else {
        a < b
    }
}

/// Sign-extends the `bits`-bit value `v` (`bits` below `xlen`) to a word.
pub fn sign_extend(xlen: u32, v: u64, bits: u32) -> (r: u64)
    requires
        valid_xlen(xlen),
        1 <= bits < xlen,
        v < vstd::arithmetic::power2::pow2(bits as nat),
    ensures
        r == word(xlen, if v >= vstd::arithmetic::power2::pow2((bits - 1) as nat) {
            v - vstd::arithmetic::power2::pow2(bits as nat)
        } else {
            v as int
        }),
{
    proof {
        vstd::arithmetic::power2::lemma_pow2_pos((bits - 1) as nat);
        vstd::arithmetic::power2::lemma_pow2_adds((bits - 1) as nat, 1);
        vstd::arithmetic::power2::lemma2_to64();
        vstd::arithmetic::power2::lemma_pow2_strictly_increases(bits as nat, xlen as nat);
        if xlen == 64 {
            vstd::arithmetic::power2::lemma2_to64_rest();
        }
    }
    let half: u64 = 1u64 << (bits - 1);
    proof {
        vstd::bits::lemma_u64_shl_is_mul(1, (bits - 1) as u64);
    }
    if v >= half {
        // v + 2^xlen - 2^bits, which stays within the u64 range
        if xlen == 32 {
            v + (0x1_0000_0000 - 2 * half)
        } else {
            v + 0u64.wrapping_sub(2 * half)
        }
    } else {
        v
    }
}

} // verus!
