//! Little-endian encoding of unsigned integers as byte sequences.
use vstd::prelude::*;

verus! {

/// 256 to the power `n`.
pub open spec fn pow256(n: nat) -> nat
    decreases n,
{
    if n == 0 {
        1
    } else {
        256 * pow256((n - 1) as nat)
    }
}

/// The number that `bytes` encodes, least significant byte first.
pub open spec fn le_value(bytes: Seq<u8>) -> nat
    decreases bytes.len(),
{
    if bytes.len() == 0 {
        0
    } else {
        bytes[0] as nat + 256 * le_value(bytes.drop_first())
    }
}

/// Byte `j` of the little-endian encoding of `v`.
pub open spec fn byte_of(v: nat, j: nat) -> u8 {
    ((v / pow256(j)) % 256) as u8
}

/// The `n` low bytes of `v`, least significant first.
pub open spec fn le_bytes(v: nat, n: nat) -> Seq<u8> {
    Seq::new(n, |j: int| byte_of(v, j as nat))
}

pub proof fn lemma_pow256_positive(n: nat)
    ensures
        pow256(n) > 0,
    decreases n,
{
    if n > 0 {
        lemma_pow256_positive((n - 1) as nat);
    }
}

pub proof fn lemma_pow256_mono(a: nat, b: nat)
    requires
        a <= b,
    ensures
        pow256(a) <= pow256(b),
    decreases b,
{
    if a < b {
        lemma_pow256_mono(a, (b - 1) as nat);
        lemma_pow256_positive((b - 1) as nat);
    }
}

pub proof fn lemma_pow256_values()
    ensures
        pow256(1) == 0x100,
        pow256(2) == 0x1_0000,
        pow256(4) == 0x1_0000_0000,
        pow256(8) == 0x1_0000_0000_0000_0000,
        pow256(16) == 0x1_0000_0000_0000_0000_0000_0000_0000_0000,
{
    reveal_with_fuel(pow256, 17);
}

/// An encoding of `n` bytes is below `256^n`.
pub proof fn lemma_le_value_bound(bytes: Seq<u8>)
    ensures
        le_value(bytes) < pow256(bytes.len()),
    decreases bytes.len(),
{
    if bytes.len() > 0 {
        lemma_le_value_bound(bytes.drop_first());
    }
}

/// Reading `n` bytes back yields the value modulo `256^n`.
pub proof fn lemma_le_round_trip(v: nat, n: nat)
    ensures
        le_value(le_bytes(v, n)) == v % pow256(n),
    decreases n,
{
    lemma_pow256_positive(n);
    if n > 0 {
        let m = (n - 1) as nat;
        lemma_pow256_positive(m);
        lemma_le_round_trip(v / 256, m);
        assert(le_bytes(v, n).drop_first() =~= le_bytes(v / 256, m)) by {
            assert forall|j: int| 0 <= j < m implies #[trigger] le_bytes(v, n).drop_first()[j]
                == le_bytes(v / 256, m)[j] by {
                lemma_pow256_positive(j as nat);
                vstd::arithmetic::div_mod::lemma_div_denominator(v as int, 256, pow256(j as nat) as int);
            }
        }
        // v == 256 * (v / 256) + v % 256 and (v / 256) % 256^m splits v % 256^n
        vstd::arithmetic::div_mod::lemma_breakdown(v as int, 256, pow256(m) as int);
    }
}

} // verus!
