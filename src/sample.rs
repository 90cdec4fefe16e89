//! What the algorithm needs of a complex sample and of the inner FFT.
use vstd::prelude::*;
use crate::transform::Scaling;

verus! {

/// A complex number in some precision.
///
/// Each operation is a function of its arguments: the exec method returns
/// what the matching spec function names. A verified implementation defines
/// the spec functions; the default bodies leave them unspecified, and code
/// generic over `Sample` sees none of them.
pub trait Sample: Sized {
    /// The sample `0 + 0i`.
    open spec fn spec_zero() -> Self {
        arbitrary()
    }

    /// The product `a * b`.
    open spec fn spec_times(a: Self, b: Self) -> Self {
        arbitrary()
    }

    /// The complex conjugate of `a`.
    open spec fn spec_conj(a: Self) -> Self {
        arbitrary()
    }

    /// `a` multiplied by the real factor that `s` gives for `size`.
    open spec fn spec_scaled(a: Self, s: Scaling, size: nat) -> Self {
        arbitrary()
    }

    /// `(cos theta, -sin theta)` with `theta = index * pi / size`.
    open spec fn spec_half_twiddle(index: int, size: nat) -> Self {
        arbitrary()
    }

    /// The sample `0 + 0i`.
    fn zero() -> (r: Self)
        ensures
            r == Self::spec_zero(),
    ;

    /// The product `self * other`.
    fn times(&self, other: &Self) -> (r: Self)
        ensures
            r == Self::spec_times(*self, *other),
    ;

    /// The complex conjugate.
    fn conj(&self) -> (r: Self)
        ensures
            r == Self::spec_conj(*self),
    ;

    /// `self` multiplied by the real factor that `s` gives for `size`.
    fn scaled(&self, s: Scaling, size: usize) -> (r: Self)
        requires
            size >= 1,
        ensures
            r == Self::spec_scaled(*self, s, size as nat),
    ;

    /// `(cos theta, -sin theta)` with `theta = index * pi / size`,
    /// evaluated from the closed form.
    fn half_twiddle(index: i128, size: usize) -> (r: Self)
        requires
            size >= 1,
        ensures
            r == Self::spec_half_twiddle(index as int, size as nat),
    ;
}

/// An in-place FFT of a fixed size, with a forward and an inverse transform.
///
/// As for `Sample`, the default bodies of the spec functions leave them
/// unspecified.
pub trait Fft<S: Sample> {
    /// The length of the buffers this FFT transforms.
    open spec fn spec_size(&self) -> nat {
        arbitrary()
    }

    /// The forward transform of `x`.
    open spec fn spec_forward(&self, x: Seq<S>) -> Seq<S> {
        arbitrary()
    }

    /// The inverse transform of `x`, with this FFT's own normalisation.
    open spec fn spec_inverse(&self, x: Seq<S>) -> Seq<S> {
        arbitrary()
    }

    /// The length of the buffers this FFT transforms.
    fn size(&self) -> (r: usize)
        ensures
            r == self.spec_size(),
    ;

    /// Forward transform of `x`, in place.
    fn fft_in_place(&self, x: &mut Vec<S>)
        requires
            old(x).len() == self.spec_size(),
        ensures
            final(x)@ == self.spec_forward(old(x)@),
            final(x).len() == old(x).len(),
    ;

    /// Inverse transform of `x`, in place.
    fn ifft_in_place(&self, x: &mut Vec<S>)
        requires
            old(x).len() == self.spec_size(),
        ensures
            final(x)@ == self.spec_inverse(old(x)@),
            final(x).len() == old(x).len(),
    ;
}

} // verus!
