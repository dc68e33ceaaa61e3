use ralg::complex::Complex;
use ralg::fft::fft_with_root;
use ralg::num::{Num, One, Zero};
use ralg::poly::Polynomial;

/// Single-precision coefficients, with the numeric capability implemented
/// by the plain floating-point operations.
#[derive(Clone, Copy, Debug, PartialEq)]
struct R(f32);

impl Zero for R {
    fn zero_spec() -> R {
        R(0.0)
    }

    fn zero() -> R {
        R(0.0)
    }
}

impl One for R {
    fn one_spec() -> R {
        R(1.0)
    }

    fn one() -> R {
        R(1.0)
    }
}

impl Num for R {
    fn add_spec(self, rhs: R) -> R {
        R(self.0 + rhs.0)
    }

    fn sub_spec(self, rhs: R) -> R {
        R(self.0 - rhs.0)
    }

    fn mul_spec(self, rhs: R) -> R {
        R(self.0 * rhs.0)
    }

    fn add(self, rhs: R) -> R {
        R(self.0 + rhs.0)
    }

    fn sub(self, rhs: R) -> R {
        R(self.0 - rhs.0)
    }

    fn mul(self, rhs: R) -> R {
        R(self.0 * rhs.0)
    }

    fn eq_val(self, rhs: R) -> bool {
        self.0 == rhs.0
    }

    fn lemma_add_zero(_x: R) {
    }

    fn lemma_mul_one(_x: R) {
    }

    fn lemma_mul_zero(_x: R) {
    }

    fn lemma_add_comm(_x: R, _y: R) {
    }

    fn lemma_add_assoc(_x: R, _y: R, _z: R) {
    }

    fn lemma_mul_comm(_x: R, _y: R) {
    }
}

/// The primitive n-th root of unity with angle `-2 pi / n`, the
/// single-precision convention.
fn root_of_unity(n: usize) -> Complex<R> {
    let theta: f32 = -2.0 * std::f32::consts::PI / n as f32;
    Complex::new(R(theta.cos()), R(theta.sin()))
}

fn assert_close(a: Complex<R>, b: Complex<R>, eps: f32) {
    assert!((a.re.0 - b.re.0).abs() < eps);
    assert!((a.im.0 - b.im.0).abs() < eps);
}

#[test]
fn fft_power_of_two_length() {
    let p = Polynomial::new(vec![R(0.0), R(1.0), R(3.0), R(7.0)]);
    let out = fft_with_root(p, root_of_unity(4));
    let expected = vec![
        Complex::new(R(11.0), R(0.0)),
        Complex::new(R(-3.0), R(6.0)),
        Complex::new(R(-5.0), R(0.0)),
        Complex::new(R(-3.0), R(-6.0)),
    ];
    assert_eq!(out.len(), expected.len());
    for (r, e) in out.iter().zip(expected) {
        assert_close(*r, e, 1.0e-6);
    }
}

#[test]
fn fft_longer_input() {
    let p = Polynomial::new(
        vec![1.0f32, 3.0, 4.0, 6.0, 7.0, 8.0, 0.0, 0.0]
            .into_iter()
            .map(R)
            .collect(),
    );
    let out = fft_with_root(p, root_of_unity(8));
    let expected = vec![
        Complex::new(R(29.0), R(0.0)),
        Complex::new(R(-13.778_174), R(-4.707_106)),
        Complex::new(R(4.0), R(-5.0)),
        Complex::new(R(1.778_174), R(3.292_893)),
        Complex::new(R(-5.0), R(0.0)),
        Complex::new(R(1.778_174), R(-3.292_893)),
        Complex::new(R(4.0), R(5.0)),
        Complex::new(R(-13.778_174), R(4.707_106_7)),
    ];
    assert_eq!(out.len(), expected.len());
    for (r, e) in out.iter().zip(expected) {
        assert_close(*r, e, 1.0e-6);
    }
}

#[test]
fn fft_with_zero_padding_matches_eval() {
    let coeffs = vec![0.0f32, 1.0, 3.0, 7.0, 8.0];
    let p = Polynomial::new(coeffs.iter().map(|&c| R(c)).collect());
    // length 5 is padded up to 8, so the transform needs the eighth root
    let root = root_of_unity(8);
    let out = fft_with_root(p, root);
    assert_eq!(out.len(), 8);

    // The oracle: evaluate the polynomial directly at each eighth root of
    // unity, by Horner's method over complex numbers.
    let mut w = Complex::new(R(1.0), R(0.0));
    for j in 0..8 {
        let mut acc = Complex::new(R(0.0), R(0.0));
        for &c in coeffs.iter().rev() {
            acc = acc * w + Complex::from_real(R(c));
        }
        assert_close(out[j], acc, 1.0e-5);
        w = w * root;
    }
}
