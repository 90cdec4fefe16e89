//! The chirp tables: the per-sample multipliers ("x" tables) and the
//! convolution kernel ("w" tables).
use vstd::prelude::*;
use crate::sample::{Fft, Sample};
use crate::size::{is_inner_size, size_in_range};

verus! {

/// The twiddle index of entry `i` of a "w" table of length `m` for a transform
/// of size `n`: `i^2` at the low end, `(i - m)^2` at the high end, none between.
pub open spec fn w_index(i: int, n: int, m: int) -> Option<int> {
    if i < n {
        Some(i * i)
    } else if i > m - n {
        Some((i - m) * (i - m))
    } else {
        None
    }
}

/// Entry `i` of a "w" table before the inner forward transform.
pub open spec fn w_entry<S: Sample>(i: int, n: nat, m: nat, forward: bool) -> S {
    match w_index(i, n as int, m as int) {
        Some(k) => {
            let t = S::spec_half_twiddle(k, n);
            if forward {
                S::spec_conj(t)
            } else {
                t
            }
        },
        None => S::spec_zero(),
    }
}

/// A "w" table in the time domain.
pub open spec fn w_chirp<S: Sample>(n: nat, m: nat, forward: bool) -> Seq<S> {
    Seq::new(m, |i: int| w_entry::<S>(i, n, m, forward))
}

/// Entry `i` of an "x" table.
pub open spec fn x_entry<S: Sample>(i: int, n: nat, forward: bool) -> S {
    let t = S::spec_half_twiddle(-(i * i), n);
    if forward {
        S::spec_conj(t)
    } else {
        t
    }
}

/// An "x" table.
pub open spec fn x_chirp<S: Sample>(n: nat, forward: bool) -> Seq<S> {
    Seq::new(n, |i: int| x_entry::<S>(i, n, forward))
}

/// The low range (`i < n`) and the high range (`i > m - n`) of a "w" table
/// never overlap once `m >= 2 * n - 1`, so each entry falls in exactly one of
/// the three ranges whatever the order in which they are tested.
pub proof fn lemma_w_ranges_disjoint(i: int, n: int, m: int)
    requires
        1 <= n,
        2 * n - 1 <= m,
    ensures
        !(i < n && i > m - n),
        w_index(i, n, m) is None <==> (n <= i && i <= m - n),
{
}

/// A square of a number below `n` fits in an `i128`.
proof fn lemma_square_fits(j: int, n: int)
    requires
        0 <= j < n,
        size_in_range(n as nat),
    ensures
        0 <= j * j <= i128::MAX,
{
    assert(usize::MAX as int / 4 + 1 <= 0x4000_0000_0000_0000);
    assert(0 <= j * j < 0x4000_0000_0000_0000 * 0x4000_0000_0000_0000) by (nonlinear_arith)
        requires
            0 <= j < n,
            n <= 0x4000_0000_0000_0000,
    ;
}

/// The twiddle index of entry `i` of a "w" table, if it has one.
fn w_chirp_index(i: usize, size: usize, m: usize) -> (r: Option<i128>)
    requires
        size_in_range(size as nat),
        2 * size - 1 <= m,
        i < m,
    ensures
        r matches Some(k) ==> w_index(i as int, size as int, m as int) == Some(k as int),
        r is None ==> w_index(i as int, size as int, m as int) is None,
{
    if i < size {
        proof {
            lemma_square_fits(i as int, size as int);
        }
        let j = i as i128;
        Some(j * j)
    } else if i > m - size {
        let d: usize = m - i;
        proof {
            lemma_square_fits(d as int, size as int);
            assert((i - m) * (i - m) == d * d) by (nonlinear_arith)
                requires
                    d == m - i,
            ;
        }
        let j = d as i128;
        Some(j * j)
    } else {
        None
    }
}

/// Fills both "w" tables and takes them to the frequency domain with the
/// inner FFT's forward transform.
pub(crate) fn initialize_w_twiddles<S: Sample, F: Fft<S>>(
    size: usize,
    fft: &F,
    forward_twiddles: &mut Vec<S>,
    inverse_twiddles: &mut Vec<S>,
)
    requires
        size_in_range(size as nat),
        is_inner_size(size as nat, fft.spec_size()),
        old(forward_twiddles).len() == fft.spec_size(),
        old(inverse_twiddles).len() == fft.spec_size(),
    ensures
        final(forward_twiddles)@ == fft.spec_forward(w_chirp::<S>(size as nat, fft.spec_size(), true)),
        final(inverse_twiddles)@ == fft.spec_forward(w_chirp::<S>(size as nat, fft.spec_size(), false)),
        final(forward_twiddles).len() == fft.spec_size(),
        final(inverse_twiddles).len() == fft.spec_size(),
{
    let m = fft.size();
    let mut i: usize = 0;
    while i < m
        invariant
            m == fft.spec_size(),
            size_in_range(size as nat),
            is_inner_size(size as nat, m as nat),
            forward_twiddles.len() == m,
            inverse_twiddles.len() == m,
            0 <= i <= m,
            forall|j: int| 0 <= j < i ==> forward_twiddles@[j] == #[trigger] w_entry::<S>(j, size as nat, m as nat, true),
            forall|j: int| 0 <= j < i ==> inverse_twiddles@[j] == #[trigger] w_entry::<S>(j, size as nat, m as nat, false),
        decreases m - i,
    {
        match w_chirp_index(i, size, m) {
            Some(index) => {
                let twiddle = S::half_twiddle(index, size);
                forward_twiddles[i] = twiddle.conj();
                inverse_twiddles[i] = twiddle;
            },
            None => {
                forward_twiddles[i] = S::zero();
                inverse_twiddles[i] = S::zero();
            },
        }
        i = i + 1;
    }
    assert(forward_twiddles@ =~= w_chirp::<S>(size as nat, m as nat, true));
    assert(inverse_twiddles@ =~= w_chirp::<S>(size as nat, m as nat, false));
    fft.fft_in_place(forward_twiddles);
    fft.fft_in_place(inverse_twiddles);
}

/// Fills both "x" tables.
pub(crate) fn initialize_x_twiddles<S: Sample>(
    size: usize,
    forward_twiddles: &mut Vec<S>,
    inverse_twiddles: &mut Vec<S>,
)
    requires
        size_in_range(size as nat),
        old(forward_twiddles).len() == size,
        old(inverse_twiddles).len() == size,
    ensures
        final(forward_twiddles)@ == x_chirp::<S>(size as nat, true),
        final(inverse_twiddles)@ == x_chirp::<S>(size as nat, false),
{
    let mut i: usize = 0;
    while i < size
        invariant
            size_in_range(size as nat),
            forward_twiddles.len() == size,
            inverse_twiddles.len() == size,
            0 <= i <= size,
            forall|j: int| 0 <= j < i ==> forward_twiddles@[j] == #[trigger] x_entry::<S>(j, size as nat, true),
            forall|j: int| 0 <= j < i ==> inverse_twiddles@[j] == #[trigger] x_entry::<S>(j, size as nat, false),
        decreases size - i,
    {
        proof {
            lemma_square_fits(i as int, size as int);
        }
        let j = i as i128;
        let twiddle = S::half_twiddle(-(j * j), size);
        forward_twiddles[i] = twiddle.conj();
        inverse_twiddles[i] = twiddle;
        i = i + 1;
    }
    assert(forward_twiddles@ =~= x_chirp::<S>(size as nat, true));
    assert(inverse_twiddles@ =~= x_chirp::<S>(size as nat, false));
}

} // verus!
