use vstd::prelude::*;

verus! {

/// Little-endian value of a byte sequence: the first byte is the least significant.
pub open spec fn le_value(b: Seq<u8>) -> nat
    decreases b.len(),
{
    if b.len() == 0 {
        0
    } else {
        b[0] as nat + 256 * le_value(b.drop_first())
    }
}

/// The number of distinct values that `n` bytes can hold.
pub open spec fn byte_capacity(n: nat) -> nat
    decreases n,
{
    if n == 0 {
        1
    } else {
        256 * byte_capacity((n - 1) as nat)
    }
}

proof fn lemma_le_step(b: Seq<u8>, j: int)
    requires
        0 < j <= b.len(),
    ensures
        le_value(b.subrange(j - 1, b.len() as int)) == b[j - 1] as nat + 256 * le_value(
            b.subrange(j, b.len() as int),
        ),
{
    let s = b.subrange(j - 1, b.len() as int);
    assert(s.drop_first() =~= b.subrange(j, b.len() as int));
}

/// Reads the eight bytes of `b` at `start` as an unsigned little-endian integer.
pub fn read_u64_le(b: &[u8], start: usize) -> (r: u64)
    requires
        start + 8 <= b@.len(),
    ensures
        r as nat == le_value(b@.subrange(start as int, start + 8)),
{
    let ghost w = b@.subrange(start as int, start + 8);
    let n: usize = b.len();
    let mut v: u64 = 0;
    let mut j: usize = 8;
    proof {
        assert(w.subrange(8, 8) =~= Seq::<u8>::empty());
        reveal_with_fuel(byte_capacity, 9);
    }
    while j > 0
        invariant
            j <= 8,
            n == b@.len(),
            start + 8 <= n,
            w == b@.subrange(start as int, start + 8),
            v as nat == le_value(w.subrange(j as int, 8)),
            v < byte_capacity((8 - j) as nat),
            byte_capacity(7) == 0x100_0000_0000_0000,
        decreases j,
    {
        proof {
            lemma_le_step(w, j as int);
            lemma_capacity_monotone((8 - j) as nat, 7);
        }
        let byte = b[start + (j - 1)];
        v = v * 256 + byte as u64;
        j = j - 1;
    }
    assert(w.subrange(0, 8) =~= w);
    v
}

proof fn lemma_capacity_monotone(a: nat, b: nat)
    requires
        a <= b,
    ensures
        byte_capacity(a) <= byte_capacity(b),
    decreases b,
{
    if a < b {
        lemma_capacity_monotone(a, (b - 1) as nat);
    }
}

/// A little-endian value of `n` bytes is below the number of values that `n` bytes hold.
pub proof fn lemma_le_value_bound(b: Seq<u8>)
    ensures
        le_value(b) < byte_capacity(b.len()),
    decreases b.len(),
{
    if b.len() > 0 {
        lemma_le_value_bound(b.drop_first());
    }
}

/// Eight little-endian bytes hold a value that fits in a `u64`.
pub proof fn lemma_eight_bytes_fit(b: Seq<u8>)
    requires
        b.len() == 8,
    ensures
        le_value(b) <= u64::MAX,
{
    lemma_le_value_bound(b);
    reveal_with_fuel(byte_capacity, 9);
}

} // verus!
