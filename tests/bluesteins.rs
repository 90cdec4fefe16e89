use fourier_algorithms::bluesteins::Bluesteins;
use fourier_algorithms::sample::{Fft, Sample};
use fourier_algorithms::size::inner_fft_size;
use fourier_algorithms::transform::{Scaling, Transform};
use num_complex::Complex;

#[derive(Clone, Copy, Debug, PartialEq)]
struct C(Complex<f64>);

impl Sample for C {
    fn zero() -> Self {
        C(Complex::new(0.0, 0.0))
    }

    fn times(&self, other: &Self) -> Self {
        C(self.0 * other.0)
    }

    fn conj(&self) -> Self {
        C(self.0.conj())
    }

    fn scaled(&self, s: Scaling, size: usize) -> Self {
        match s {
            Scaling::Unit => *self,
            Scaling::InverseSize => C(self.0 * (1.0 / size as f64)),
            Scaling::InverseSqrtSize => C(self.0 * (1.0 / (size as f64).sqrt())),
        }
    }

    fn half_twiddle(index: i128, size: usize) -> Self {
        let theta = index as f64 * std::f64::consts::PI / size as f64;
        C(Complex::new(theta.cos(), -theta.sin()))
    }
}

/// A direct DFT of a fixed size; its inverse is scaled by `1 / size`.
struct NaiveFft {
    size: usize,
}

fn dft(x: &[Complex<f64>], sign: f64) -> Vec<Complex<f64>> {
    let n = x.len();
    (0..n)
        .map(|k| {
            let mut acc = Complex::new(0.0, 0.0);
            for (j, v) in x.iter().enumerate() {
                let theta = sign * 2.0 * std::f64::consts::PI * ((j * k) % n) as f64 / n as f64;
                acc += v * Complex::new(theta.cos(), theta.sin());
            }
            acc
        })
        .collect()
}

impl Fft<C> for NaiveFft {
    fn size(&self) -> usize {
        self.size
    }

    fn fft_in_place(&self, x: &mut Vec<C>) {
        assert_eq!(x.len(), self.size);
        let v: Vec<Complex<f64>> = x.iter().map(|c| c.0).collect();
        let out = dft(&v, -1.0);
        for (d, s) in x.iter_mut().zip(out) {
            *d = C(s);
        }
    }

    fn ifft_in_place(&self, x: &mut Vec<C>) {
        assert_eq!(x.len(), self.size);
        let v: Vec<Complex<f64>> = x.iter().map(|c| c.0).collect();
        let out = dft(&v, 1.0);
        let scale = 1.0 / self.size as f64;
        for (d, s) in x.iter_mut().zip(out) {
            *d = C(s * scale);
        }
    }
}

fn engine(n: usize) -> Bluesteins<C, NaiveFft> {
    let m = inner_fft_size(n);
    let z = C::zero();
    Bluesteins::new_with_fft(
        n,
        NaiveFft { size: m },
        vec![z; m],
        vec![z; m],
        vec![z; n],
        vec![z; n],
        vec![z; m],
    )
}

fn signal(n: usize, seed: u64) -> Vec<C> {
    let mut state = seed.wrapping_mul(6364136223846793005).wrapping_add(1442695040888963407);
    let mut next = move || {
        state = state.wrapping_mul(6364136223846793005).wrapping_add(1442695040888963407);
        ((state >> 11) as f64 / (1u64 << 53) as f64) * 2.0 - 1.0
    };
    (0..n).map(|_| C(Complex::new(next(), next()))).collect()
}

fn max_error(a: &[C], b: &[C]) -> f64 {
    assert_eq!(a.len(), b.len());
    a.iter().zip(b).map(|(x, y)| (x.0 - y.0).norm()).fold(0.0, f64::max)
}

fn reference(x: &[C], kind: Transform) -> Vec<C> {
    let n = x.len() as f64;
    let v: Vec<Complex<f64>> = x.iter().map(|c| c.0).collect();
    let (sign, scale) = match kind {
        Transform::Fft => (-1.0, 1.0),
        Transform::Ifft => (1.0, 1.0 / n),
        Transform::UnscaledIfft => (1.0, 1.0),
        Transform::SqrtScaledFft => (-1.0, 1.0 / n.sqrt()),
        Transform::SqrtScaledIfft => (1.0, 1.0 / n.sqrt()),
    };
    dft(&v, sign).into_iter().map(|c| C(c * scale)).collect()
}

fn energy(x: &[C]) -> f64 {
    x.iter().map(|c| c.0.norm_sqr()).sum()
}

const KINDS: [Transform; 5] = [
    Transform::Fft,
    Transform::Ifft,
    Transform::UnscaledIfft,
    Transform::SqrtScaledFft,
    Transform::SqrtScaledIfft,
];

#[test]
fn inner_size_examples() {
    assert_eq!(inner_fft_size(5), 16);
    assert_eq!(inner_fft_size(9), 32);
    assert_eq!(inner_fft_size(1), 1);
    assert_eq!(inner_fft_size(2), 4);
    assert_eq!(inner_fft_size(3), 8);
    assert_eq!(inner_fft_size(4), 8);
    assert_eq!(inner_fft_size(8), 16);
    assert_eq!(inner_fft_size(13), 32);
    assert_eq!(inner_fft_size(17), 64);
}

#[test]
fn inner_size_largest() {
    let largest = usize::MAX / 4 + 1;
    assert_eq!(inner_fft_size(largest), usize::MAX / 2 + 1);
    assert_eq!(inner_fft_size(largest - 1), usize::MAX / 2 + 1);
}

#[test]
fn transform_kinds_direction_and_scaling() {
    assert!(Transform::Fft.is_forward());
    assert!(Transform::SqrtScaledFft.is_forward());
    assert!(!Transform::Ifft.is_forward());
    assert!(!Transform::UnscaledIfft.is_forward());
    assert!(!Transform::SqrtScaledIfft.is_forward());
    assert_eq!(Transform::Fft.scaling(), Scaling::Unit);
    assert_eq!(Transform::UnscaledIfft.scaling(), Scaling::Unit);
    assert_eq!(Transform::Ifft.scaling(), Scaling::InverseSize);
    assert_eq!(Transform::SqrtScaledFft.scaling(), Scaling::InverseSqrtSize);
    assert_eq!(Transform::SqrtScaledIfft.scaling(), Scaling::InverseSqrtSize);
}

#[test]
fn engine_reports_its_size() {
    for n in [1usize, 2, 5, 12] {
        assert_eq!(engine(n).size(), n);
    }
}

#[test]
fn impulse_fft_is_flat() {
    let mut e = engine(4);
    let z = C::zero();
    let mut x = vec![C(Complex::new(1.0, 0.0)), z, z, z];
    e.transform_in_place(&mut x, Transform::Fft);
    for c in &x {
        assert!((c.0.norm() - 1.0).abs() < 1e-12);
        assert!(c.0.arg().abs() < 1e-12);
    }
}

#[test]
fn ifft_of_flat_spectrum_is_impulse() {
    let mut e = engine(4);
    let one = C(Complex::new(1.0, 0.0));
    let mut x = vec![one; 4];
    e.transform_in_place(&mut x, Transform::Ifft);
    let z = C::zero();
    assert!(max_error(&x, &[one, z, z, z]) < 1e-12);
}

#[test]
fn matches_direct_dft() {
    for n in [1usize, 2, 3, 5, 6, 7, 12, 13] {
        let mut e = engine(n);
        for (s, kind) in KINDS.iter().enumerate() {
            let x = signal(n, 17 * n as u64 + s as u64);
            let expected = reference(&x, *kind);
            let mut y = x.clone();
            e.transform_in_place(&mut y, *kind);
            let scale = energy(&expected).sqrt().max(1.0);
            assert!(max_error(&y, &expected) / scale < 1e-12, "n = {}, {:?}", n, kind);
        }
    }
}

#[test]
fn forward_then_inverse_round_trips() {
    for n in 1usize..=20 {
        let mut e = engine(n);
        let x = signal(n, n as u64);
        let mut y = x.clone();
        e.transform_in_place(&mut y, Transform::Fft);
        e.transform_in_place(&mut y, Transform::Ifft);
        assert!(max_error(&x, &y) < 1e-12 * n as f64, "n = {}", n);
        let mut z = x.clone();
        e.transform_in_place(&mut z, Transform::SqrtScaledFft);
        e.transform_in_place(&mut z, Transform::SqrtScaledIfft);
        assert!(max_error(&x, &z) < 1e-12 * n as f64, "n = {}", n);
    }
}

#[test]
fn unscaled_inverse_is_size_times_inverse() {
    let n = 6;
    let mut e = engine(n);
    let x = signal(n, 3);
    let mut a = x.clone();
    e.transform_in_place(&mut a, Transform::Ifft);
    let mut b = x.clone();
    e.transform_in_place(&mut b, Transform::UnscaledIfft);
    let scaled: Vec<C> = a.iter().map(|c| C(c.0 * n as f64)).collect();
    assert!(max_error(&scaled, &b) < 1e-12);
}

#[test]
fn transform_is_linear() {
    let n = 7;
    let mut e = engine(n);
    let a = Complex::new(0.5, -1.25);
    let b = Complex::new(-2.0, 0.75);
    let x = signal(n, 11);
    let y = signal(n, 12);
    for kind in KINDS {
        let mut combined: Vec<C> = x.iter().zip(&y).map(|(p, q)| C(a * p.0 + b * q.0)).collect();
        e.transform_in_place(&mut combined, kind);
        let mut tx = x.clone();
        e.transform_in_place(&mut tx, kind);
        let mut ty = y.clone();
        e.transform_in_place(&mut ty, kind);
        let expected: Vec<C> = tx.iter().zip(&ty).map(|(p, q)| C(a * p.0 + b * q.0)).collect();
        assert!(max_error(&combined, &expected) < 1e-11, "{:?}", kind);
    }
}

#[test]
fn sqrt_scaled_transforms_keep_energy() {
    for n in [1usize, 5, 9, 12] {
        let mut e = engine(n);
        let x = signal(n, 40 + n as u64);
        for kind in [Transform::SqrtScaledFft, Transform::SqrtScaledIfft] {
            let mut y = x.clone();
            e.transform_in_place(&mut y, kind);
            assert!((energy(&y) - energy(&x)).abs() < 1e-10 * energy(&x).max(1.0));
        }
    }
}

#[test]
fn size_one_is_identity_for_every_kind() {
    let mut e = engine(1);
    for kind in KINDS {
        let mut x = vec![C(Complex::new(0.25, -3.5))];
        e.transform_in_place(&mut x, kind);
        assert!(max_error(&x, &[C(Complex::new(0.25, -3.5))]) < 1e-12);
    }
}

#[test]
fn engine_is_reusable() {
    let n = 5;
    let mut e = engine(n);
    let x = signal(n, 99);
    let mut first = x.clone();
    e.transform_in_place(&mut first, Transform::Fft);
    let mut other = signal(n, 100);
    e.transform_in_place(&mut other, Transform::Ifft);
    let mut second = x.clone();
    e.transform_in_place(&mut second, Transform::Fft);
    assert_eq!(first, second);
}

#[test]
fn scaled_kinds_scale_the_unscaled_output() {
    let n = 6;
    let mut e = engine(n);
    let x = signal(n, 5);
    for (kind, unscaled) in [
        (Transform::SqrtScaledFft, Transform::Fft),
        (Transform::SqrtScaledIfft, Transform::UnscaledIfft),
        (Transform::Ifft, Transform::UnscaledIfft),
    ] {
        let mut a = x.clone();
        e.transform_in_place(&mut a, kind);
        let mut b = x.clone();
        e.transform_in_place(&mut b, unscaled);
        let expected: Vec<C> = b.iter().map(|c| c.scaled(kind.scaling(), n)).collect();
        assert_eq!(a, expected);
    }
}
