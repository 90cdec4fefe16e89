//! The five transform kinds, their direction and their scaling.
use vstd::prelude::*;

verus! {

/// The kind of transform applied to a buffer.
#[derive(Clone, Copy, Debug, PartialEq, Eq, Structural)]
pub enum Transform {
    /// Forward transform, unscaled.
    Fft,
    /// Inverse transform, scaled by `1 / size`.
    Ifft,
    /// Inverse transform, unscaled.
    UnscaledIfft,
    /// Forward transform, scaled by `1 / sqrt(size)`.
    SqrtScaledFft,
    /// Inverse transform, scaled by `1 / sqrt(size)`.
    SqrtScaledIfft,
}

/// The factor by which a transform's output is multiplied.
#[derive(Clone, Copy, Debug, PartialEq, Eq, Structural)]
pub enum Scaling {
    /// No scaling.
    Unit,
    /// `1 / size`.
    InverseSize,
    /// `1 / sqrt(size)`.
    InverseSqrtSize,
}

impl Transform {
    pub open spec fn spec_is_forward(self) -> bool {
        self == Transform::Fft || self == Transform::SqrtScaledFft
    }

    pub open spec fn spec_scaling(self) -> Scaling {
        match self {
            Transform::Fft | Transform::UnscaledIfft => Scaling::Unit,
            Transform::Ifft => Scaling::InverseSize,
            Transform::SqrtScaledFft | Transform::SqrtScaledIfft => Scaling::InverseSqrtSize,
        }
    }

    /// Whether this is a forward transform (`Fft`, `SqrtScaledFft`).
    pub fn is_forward(&self) -> (r: bool)
        ensures
            r == self.spec_is_forward(),
    {
        match self {
            Transform::Fft | Transform::SqrtScaledFft => true,
            _ => false,
        }
    }

    /// The scaling of this transform's output.
    pub fn scaling(&self) -> (r: Scaling)
        ensures
            r == self.spec_scaling(),
    {
        match self {
            Transform::Fft | Transform::UnscaledIfft => Scaling::Unit,
            Transform::Ifft => Scaling::InverseSize,
            Transform::SqrtScaledFft | Transform::SqrtScaledIfft => Scaling::InverseSqrtSize,
        }
    }
}

} // verus!
