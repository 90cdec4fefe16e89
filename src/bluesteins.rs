//! The Bluestein engine and the per-call pipeline.
use vstd::prelude::*;
use crate::chirp::{initialize_w_twiddles, initialize_x_twiddles, w_chirp, x_chirp};
use crate::sample::{Fft, Sample};
use crate::size::{is_inner_size, size_in_range};
use crate::transform::{Scaling, Transform};

verus! {

/// Chirp modulation, zero-padded to `m`: `x[i] * input[i]` below the input's
/// length, zero from there on.
pub open spec fn modulated<S: Sample>(x: Seq<S>, input: Seq<S>, m: nat) -> Seq<S> {
    Seq::new(
        m,
        |i: int|
            if i < input.len() {
                S::spec_times(x[i], input[i])
            } else {
                S::spec_zero()
            },
    )
}

/// The pointwise product of `a` and `w`.
pub open spec fn pointwise<S: Sample>(a: Seq<S>, w: Seq<S>) -> Seq<S> {
    Seq::new(a.len(), |i: int| S::spec_times(a[i], w[i]))
}

/// Chirp demodulation and scaling of the first `n` entries of `conv`.
pub open spec fn demodulated<S: Sample>(conv: Seq<S>, x: Seq<S>, s: Scaling, n: nat) -> Seq<S> {
    Seq::new(
        n,
        |i: int|
            {
                let p = S::spec_times(conv[i], x[i]);
                if s == Scaling::Unit {
                    p
                } else {
                    S::spec_scaled(p, s, n)
                }
            },
    )
}

/// The pipeline run on `input` with the "x" table `x` and the
/// frequency-domain "w" table `w`: modulate and pad, forward transform,
/// multiply by `w`, inverse transform, demodulate and scale.
pub open spec fn pipeline<S: Sample, F: Fft<S>>(
    fft: F,
    x: Seq<S>,
    w: Seq<S>,
    input: Seq<S>,
    s: Scaling,
) -> Seq<S> {
    let spectrum = fft.spec_forward(modulated(x, input, fft.spec_size()));
    let conv = fft.spec_inverse(pointwise(spectrum, w));
    demodulated(conv, x, s, input.len())
}

/// The "w" table for a direction, in the frequency domain.
pub open spec fn w_table<S: Sample, F: Fft<S>>(fft: F, n: nat, forward: bool) -> Seq<S> {
    fft.spec_forward(w_chirp::<S>(n, fft.spec_size(), forward))
}

/// Bluestein's transform of `input` (of length `n`) with inner FFT `fft`:
/// forward kinds use the forward tables, inverse kinds the inverse ones.
pub open spec fn bluestein<S: Sample, F: Fft<S>>(
    fft: F,
    n: nat,
    input: Seq<S>,
    transform: Transform,
) -> Seq<S> {
    let forward = transform.spec_is_forward();
    pipeline(fft, x_chirp::<S>(n, forward), w_table(fft, n, forward), input, transform.spec_scaling())
}

/// The unscaled kind with the same direction as `transform`.
pub open spec fn unscaled_kind(transform: Transform) -> Transform {
    if transform.spec_is_forward() {
        Transform::Fft
    } else {
        Transform::UnscaledIfft
    }
}

/// Every kind is the unscaled transform of its direction, multiplied entry
/// by entry by the kind's scale: nothing, `1 / n` or `1 / sqrt(n)`.
pub proof fn lemma_kind_is_scaled_unscaled<S: Sample, F: Fft<S>>(
    fft: F,
    n: nat,
    input: Seq<S>,
    transform: Transform,
)
    requires
        input.len() == n,
    ensures
        bluestein(fft, n, input, transform).len() == n,
        forall|i: int|
            0 <= i < n ==> #[trigger] bluestein(fft, n, input, transform)[i] == if transform.spec_scaling()
                == Scaling::Unit {
                bluestein(fft, n, input, unscaled_kind(transform))[i]
            } else {
                S::spec_scaled(
                    bluestein(fft, n, input, unscaled_kind(transform))[i],
                    transform.spec_scaling(),
                    n,
                )
            },
{
}

/// Runs the pipeline on `input`, with `work` as scratch space.
fn apply<S: Sample, F: Fft<S>>(
    input: &mut Vec<S>,
    work: &mut Vec<S>,
    x: &Vec<S>,
    w: &Vec<S>,
    fft: &F,
    transform: Transform,
)
    requires
        1 <= x.len() <= fft.spec_size(),
        old(input).len() == x.len(),
        old(work).len() == fft.spec_size(),
        w.len() == fft.spec_size(),
    ensures
        final(input)@ == pipeline(*fft, x@, w@, old(input)@, transform.spec_scaling()),
        final(work).len() == old(work).len(),
{
    let ghost given = input@;
    let size = input.len();
    let m = work.len();
    let mut i: usize = 0;
    while i < size
        invariant
            size == input.len(),
            m == work.len(),
            input@ == given,
            size == x.len(),
            size <= m,
            0 <= i <= size,
            forall|j: int|
                0 <= j < i ==> work@[j] == #[trigger] modulated(x@, given, m as nat)[j],
        decreases size - i,
    {
        work[i] = x[i].times(&input[i]);
        i = i + 1;
    }
    while i < m
        invariant
            size == input.len(),
            m == work.len(),
            input@ == given,
            size <= i <= m,
            forall|j: int|
                0 <= j < i ==> work@[j] == #[trigger] modulated(x@, given, m as nat)[j],
        decreases m - i,
    {
        work[i] = S::zero();
        i = i + 1;
    }
    assert(work@ =~= modulated(x@, given, m as nat));
    fft.fft_in_place(work);
    let ghost spectrum = work@;
    i = 0;
    while i < m
        invariant
            m == work.len(),
            m == w.len(),
            spectrum.len() == m,
            0 <= i <= m,
            forall|j: int| i <= j < m ==> work@[j] == spectrum[j],
            forall|j: int| 0 <= j < i ==> work@[j] == #[trigger] pointwise(spectrum, w@)[j],
        decreases m - i,
    {
        let product = work[i].times(&w[i]);
        work[i] = product;
        i = i + 1;
    }
    assert(work@ =~= pointwise(spectrum, w@));
    fft.ifft_in_place(work);
    let ghost conv = work@;
    let scaling = transform.scaling();
    i = 0;
    while i < size
        invariant
            size == input.len(),
            size == x.len(),
            m == work.len(),
            size <= m,
            work@ == conv,
            scaling == transform.spec_scaling(),
            1 <= size,
            0 <= i <= size,
            forall|j: int|
                0 <= j < i ==> input@[j] == #[trigger] demodulated(conv, x@, scaling, size as nat)[j],
        decreases size - i,
    {
        let p = work[i].times(&x[i]);
        match scaling {
            Scaling::Unit => {
                input[i] = p;
            },
            _ => {
                input[i] = p.scaled(scaling, size);
            },
        }
        i = i + 1;
    }
    assert(input@ =~= demodulated(conv, x@, scaling, size as nat));
}

/// Implements Bluestein's algorithm for arbitrary FFT sizes.
///
/// The engine owns its inner FFT, its four chirp tables and one scratch
/// buffer, all supplied by the caller. A transform takes the engine by
/// `&mut`, so no transform can start on an engine while another runs on it.
pub struct Bluesteins<S, F> {
    size: usize,
    inner_fft: F,
    w_forward: Vec<S>,
    w_inverse: Vec<S>,
    x_forward: Vec<S>,
    x_inverse: Vec<S>,
    work: Vec<S>,
}

impl<S: Sample, F: Fft<S>> Bluesteins<S, F> {
    /// The transform size.
    pub closed spec fn spec_size(&self) -> nat {
        self.size as nat
    }

    /// The inner FFT.
    pub closed spec fn spec_inner(&self) -> F {
        self.inner_fft
    }

    /// The tables hold the chirps for this size and inner FFT, and every
    /// buffer has the length its role asks for.
    pub closed spec fn wf(&self) -> bool {
        let m = self.inner_fft.spec_size();
        &&& size_in_range(self.size as nat)
        &&& is_inner_size(self.size as nat, m)
        &&& self.x_forward@ == x_chirp::<S>(self.size as nat, true)
        &&& self.x_inverse@ == x_chirp::<S>(self.size as nat, false)
        &&& self.w_forward@ == w_table::<S, F>(self.inner_fft, self.size as nat, true)
        &&& self.w_inverse@ == w_table::<S, F>(self.inner_fft, self.size as nat, false)
        &&& self.w_forward.len() == m
        &&& self.w_inverse.len() == m
        &&& self.work.len() == m
    }

    /// Create a new Bluestein's algorithm generator.
    ///
    /// The four tables and the scratch buffer are the caller's storage: their
    /// contents are overwritten, their lengths must match their roles.
    pub fn new_with_fft(
        size: usize,
        inner_fft: F,
        w_forward: Vec<S>,
        w_inverse: Vec<S>,
        x_forward: Vec<S>,
        x_inverse: Vec<S>,
        work: Vec<S>,
    ) -> (r: Self)
        requires
            size_in_range(size as nat),
            is_inner_size(size as nat, inner_fft.spec_size()),
            w_forward.len() == inner_fft.spec_size(),
            w_inverse.len() == inner_fft.spec_size(),
            x_forward.len() == size,
            x_inverse.len() == size,
            work.len() == inner_fft.spec_size(),
        ensures
            r.wf(),
            r.spec_size() == size,
            r.spec_inner() == inner_fft,
    {
        let mut w_forward = w_forward;
        let mut w_inverse = w_inverse;
        let mut x_forward = x_forward;
        let mut x_inverse = x_inverse;
        initialize_w_twiddles(size, &inner_fft, &mut w_forward, &mut w_inverse);
        initialize_x_twiddles(size, &mut x_forward, &mut x_inverse);
        Bluesteins { size, inner_fft, w_forward, w_inverse, x_forward, x_inverse, work }
    }

    /// The transform size.
    pub fn size(&self) -> (r: usize)
        ensures
            r == self.spec_size(),
    {
        self.size
    }

    /// Transforms `input` in place.
    pub fn transform_in_place(&mut self, input: &mut Vec<S>, transform: Transform)
        requires
            old(self).wf(),
            old(input).len() == old(self).spec_size(),
        ensures
            final(self).wf(),
            final(self).spec_size() == old(self).spec_size(),
            final(self).spec_inner() == old(self).spec_inner(),
            final(input)@ == bluestein(old(self).spec_inner(), old(self).spec_size(), old(input)@, transform),
    {
        if transform.is_forward() {
            apply(input, &mut self.work, &self.x_forward, &self.w_forward, &self.inner_fft, transform);
        } else {
            apply(input, &mut self.work, &self.x_inverse, &self.w_inverse, &self.inner_fft, transform);
        }
    }
}

} // verus!
