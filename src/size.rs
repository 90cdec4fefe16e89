//! The length of the inner FFT.
use vstd::prelude::*;

verus! {

/// `m` is a power of two.
pub open spec fn is_pow2(m: nat) -> bool
    decreases m,
{
    if m == 1 {
        true
    } else if m == 0 || m % 2 == 1 {
        false
    } else {
        is_pow2(m / 2)
    }
}

/// `m` is the smallest power of two not below `2 * size - 1`: the only power
/// of two in `[2 * size - 1, 2 * (2 * size - 1))`.
pub open spec fn is_inner_size(size: nat, m: nat) -> bool {
    &&& is_pow2(m)
    &&& 2 * size - 1 <= m
    &&& m < 2 * (2 * size - 1)
}

/// The sizes for which the inner size fits in a `usize`.
pub open spec fn size_in_range(size: nat) -> bool {
    1 <= size <= usize::MAX as nat / 4 + 1
}

proof fn lemma_pow2_double(m: nat)
    requires
        is_pow2(m),
    ensures
        is_pow2(2 * m),
{
    assert((2 * m) / 2 == m);
    assert((2 * m) % 2 == 0);
    reveal_with_fuel(is_pow2, 2);
}

/// Of two powers of two, the larger is at least twice the smaller.
proof fn lemma_pow2_gap(a: nat, b: nat)
    requires
        is_pow2(a),
        is_pow2(b),
        a < b,
    ensures
        2 * a <= b,
    decreases a,
{
    reveal_with_fuel(is_pow2, 2);
    if a != 1 {
        lemma_pow2_gap(a / 2, b / 2);
    }
}

/// The inner size of a transform size is unique.
pub proof fn lemma_inner_size_unique(size: nat, a: nat, b: nat)
    requires
        is_inner_size(size, a),
        is_inner_size(size, b),
    ensures
        a == b,
{
    if a < b {
        lemma_pow2_gap(a, b);
    } else if b < a {
        lemma_pow2_gap(b, a);
    }
}

/// Returns the size of the inner FFT required for Bluestein's FFT.
pub fn inner_fft_size(size: usize) -> (r: usize)
    requires
        size_in_range(size as nat),
    ensures
        is_inner_size(size as nat, r as nat),
{
    let target: usize = 2 * size - 1;
    let mut p: usize = 1;
    while p < target
        invariant
            target == 2 * size - 1,
            size_in_range(size as nat),
            is_pow2(p as nat),
            1 <= p,
            p < 2 * target,
        decreases 2 * target - p,
    {
        proof {
            lemma_pow2_double(p as nat);
        }
        p = p * 2;
    }
    p
}

} // verus!
