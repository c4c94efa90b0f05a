//! Little-endian byte strings and byte comparison.

use vstd::prelude::*;

verus! {

/// `256` to the power `n`.
pub open spec fn pow256(n: nat) -> nat
    decreases n,
{
    if n == 0 {
        1
    } else {
        256 * pow256((n - 1) as nat)
    }
}

/// The `n` low-order bytes of `x`, least significant byte first.
pub open spec fn le_bytes(x: nat, n: nat) -> Seq<u8>
    decreases n,
{
    if n == 0 {
        Seq::empty()
    } else {
        seq![(x % 256) as u8] + le_bytes(x / 256, (n - 1) as nat)
    }
}

/// The unsigned 64-bit number with the same bits as `t` in two's complement.
pub open spec fn twos_complement(t: i64) -> nat {
    if t >= 0 {
        t as nat
    } else {
        (t + 0x1_0000_0000_0000_0000) as nat
    }
}

/// `le_bytes(x, n)` has `n` bytes.
pub proof fn lemma_le_bytes_len(x: nat, n: nat)
    ensures
        le_bytes(x, n).len() == n,
    decreases n,
{
    if n > 0 {
        lemma_le_bytes_len(x / 256, (n - 1) as nat);
    }
}

/// `pow256(8)` is `2^64`.
pub proof fn lemma_pow256_8()
    ensures
        pow256(8) == 0x1_0000_0000_0000_0000,
{
    reveal_with_fuel(pow256, 9);
}

/// Numbers below `256^n` with the same `n` low-order bytes are equal.
pub proof fn lemma_le_bytes_injective(x: nat, y: nat, n: nat)
    requires
        x < pow256(n),
        y < pow256(n),
        le_bytes(x, n) == le_bytes(y, n),
    ensures
        x == y,
    decreases n,
{
    if n > 0 {
        let m = (n - 1) as nat;
        let bx = seq![(x % 256) as u8];
        let by = seq![(y % 256) as u8];
        lemma_le_bytes_len(x / 256, m);
        lemma_le_bytes_len(y / 256, m);
        assert((bx + le_bytes(x / 256, m))[0] == (x % 256) as u8);
        assert((by + le_bytes(y / 256, m))[0] == (y % 256) as u8);
        assert(x % 256 == y % 256);
        assert(le_bytes(x / 256, m) == le_bytes(y / 256, m)) by {
            assert((bx + le_bytes(x / 256, m)).subrange(1, n as int) == le_bytes(x / 256, m));
            assert((by + le_bytes(y / 256, m)).subrange(1, n as int) == le_bytes(y / 256, m));
        }
        lemma_le_bytes_injective(x / 256, y / 256, m);
    }
}

/// Two's complement is one-to-one.
pub proof fn lemma_twos_complement_injective(s: i64, t: i64)
    requires
        twos_complement(s) == twos_complement(t),
    ensures
        s == t,
{
}

/// The bits of `t`, read as an unsigned number.
pub fn i64_bits(t: i64) -> (r: u64)
    ensures
        r == twos_complement(t),
{
    if t >= 0 {
        t as u64
    } else {
        let low: u64 = (t - i64::MIN) as u64;
        low + 0x8000_0000_0000_0000u64
    }
}

/// Appends the eight bytes of `x`, least significant first.
pub fn push_u64_le(out: &mut Vec<u8>, x: u64)
    ensures
        final(out)@ == old(out)@ + le_bytes(x as nat, 8),
{
    let ghost before = out@;
    let mut rest: u64 = x;
    let mut i: usize = 0;
    while i < 8
        invariant
            i <= 8,
            out@ + le_bytes(rest as nat, (8 - i) as nat) == before + le_bytes(x as nat, 8),
        decreases 8 - i,
    {
        let ghost prev = out@;
        out.push((rest % 256) as u8);
        proof {
            let tail = le_bytes((rest / 256) as nat, (8 - i - 1) as nat);
            assert(le_bytes(rest as nat, (8 - i) as nat) == seq![(rest % 256) as u8] + tail);
            assert(out@ + tail == prev + (seq![(rest % 256) as u8] + tail));
        }
        rest = rest / 256;
        i += 1;
    }
    assert(out@ + le_bytes(rest as nat, 0) == out@);
}

/// Whether two byte strings are the same.
pub fn bytes_eq(a: &[u8], b: &[u8]) -> (r: bool)
    ensures
        r == (a@ == b@),
{
    if a.len() != b.len() {
        return false;
    }
    let mut i: usize = 0;
    while i < a.len()
        invariant
            i <= a.len(),
            a.len() == b.len(),
            forall|j: int| 0 <= j < i ==> a@[j] == b@[j],
        decreases a.len() - i,
    {
        if a[i] != b[i] {
            return false;
        }
        i += 1;
    }
    assert(a@ =~= b@);
    true
}

} // verus!
