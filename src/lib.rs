//! Bluestein's algorithm: a discrete Fourier transform of any length, computed
//! as a cyclic convolution with an inner power-of-two FFT.
pub mod bluesteins;
pub mod chirp;
pub mod sample;
pub mod size;
pub mod transform;
