use ralg::num::{Num, One, Zero};
use ralg::poly::Polynomial;

/// Single-precision coefficients for the tests that use them; the numeric
/// capability is implemented with the plain floating-point operations.
#[derive(Clone, Copy, Debug, PartialEq)]
struct R(f32);

impl Zero for R {
    fn zero_spec() -> R {
        R(0.0)
    }

    fn zero() -> R {
        R(0.0)
    }
}

impl One for R {
    fn one_spec() -> R {
        R(1.0)
    }

    fn one() -> R {
        R(1.0)
    }
}

impl Num for R {
    fn add_spec(self, rhs: R) -> R {
        R(self.0 + rhs.0)
    }

    fn sub_spec(self, rhs: R) -> R {
        R(self.0 - rhs.0)
    }

    fn mul_spec(self, rhs: R) -> R {
        R(self.0 * rhs.0)
    }

    fn add(self, rhs: R) -> R {
        R(self.0 + rhs.0)
    }

    fn sub(self, rhs: R) -> R {
        R(self.0 - rhs.0)
    }

    fn mul(self, rhs: R) -> R {
        R(self.0 * rhs.0)
    }

    fn eq_val(self, rhs: R) -> bool {
        self.0 == rhs.0
    }

    fn lemma_add_zero(_x: R) {
    }

    fn lemma_mul_one(_x: R) {
    }

    fn lemma_mul_zero(_x: R) {
    }

    fn lemma_add_comm(_x: R, _y: R) {
    }

    fn lemma_add_assoc(_x: R, _y: R, _z: R) {
    }

    fn lemma_mul_comm(_x: R, _y: R) {
    }
}

#[test]
fn new() {
    let p = Polynomial::new(vec![0, 1, 5, 6]);
    assert_eq!(p.coeff, vec![0, 1, 5, 6]);
}

#[test]
fn deg() {
    // Zero polynomials
    let p: Polynomial<i32> = Polynomial::new(vec![]);
    assert_eq!(p.degree_bound(), usize::MAX);
    assert_eq!(p.degree(), usize::MAX);

    let p: Polynomial<R> = Polynomial::new(vec![R(0.0), R(0.0), R(0.0), R(0.0)]);
    assert_eq!(p.degree_bound(), usize::MAX);
    assert_eq!(p.degree(), usize::MAX);

    let p = Polynomial::new(vec![5, 2, 0, 1]);
    assert_eq!(p.degree_bound(), 3);

    // Degree bound >= degree
    let p = Polynomial::new(vec![0, 3, 4, 0]);
    assert_eq!(p.degree_bound(), 3);
    assert_eq!(p.degree(), 2);

    let q = Polynomial::new(vec![R(0.1), R(0.0), R(0.0), R(0.0)]);
    assert_eq!(q.degree_bound(), 3);
    assert_eq!(q.degree(), 0);

    // Degree bound == degree
    let p = Polynomial::new(vec![1, 5, 0, 6, 7]);
    assert_eq!(p.degree_bound(), 4);
    assert_eq!(p.degree(), 4);
}

#[test]
fn eval() {
    let p: Polynomial<R> = Polynomial::new(vec![]);
    assert_eq!(p.eval(R(3.0)), R(0.0));

    let q = Polynomial::new(vec![2, 3, 5, 6]);
    assert_eq!(q.eval(0), 2);
    assert_eq!(q.eval(1), 16);
    assert_eq!(q.eval(-1), -2);
    assert_eq!(q.eval(2), 76);
    assert_eq!(q.eval(4), 478);
}

#[test]
fn add() {
    // Sum of zero polynomials is zero
    let p: Polynomial<R> = Polynomial::new(vec![]);
    let q: Polynomial<R> = Polynomial::new(vec![]);
    assert_eq!(p + q, Polynomial::new(vec![]));

    let p = Polynomial::new(vec![1, 2, 4]);
    let q = Polynomial::new(vec![5, -2, 17]);
    assert_eq!(p.clone() + q.clone(), Polynomial::new(vec![6, 0, 21]));
    assert_eq!(q + p, Polynomial::new(vec![6, 0, 21]));
}

#[test]
fn mul() {
    // Zero polynomials
    let p: Polynomial<i32> = Polynomial::new(vec![]);
    let q: Polynomial<i32> = Polynomial::new(vec![]);
    assert_eq!(p * q, Polynomial::new(vec![]));

    let p = Polynomial::new(vec![R(3.4), R(9.0), R(1.1)]);
    let q: Polynomial<R> = Polynomial::new(vec![]);
    assert_eq!(p * q, Polynomial::new(vec![]));

    // Same length
    let p = Polynomial::new(vec![0, 3, 5]);
    let q = Polynomial::new(vec![4, 7, 8]);
    assert_eq!(
        p.clone() * q.clone(),
        Polynomial::new(vec![0, 12, 41, 59, 40])
    );
    assert_eq!(q * p, Polynomial::new(vec![0, 12, 41, 59, 40]));

    // Different length
    let p = Polynomial::new(vec![5, 0, 10, 6]);
    let q = Polynomial::new(vec![1, 2, 4]);
    assert_eq!(
        p.clone() * q.clone(),
        Polynomial::new(vec![5, 10, 30, 26, 52, 24]),
    );
    assert_eq!(q * p, Polynomial::new(vec![5, 10, 30, 26, 52, 24]));
}

#[test]
fn reduce() {
    let mut p = Polynomial::new(vec![1, 0, 0]);
    p.reduce();
    assert_eq!(p, Polynomial::new(vec![1]));

    let mut p = Polynomial::new(vec![R(1.0), R(0.0), R(4.5), R(0.0)]);
    p.reduce();
    assert_eq!(p, Polynomial::new(vec![R(1.0), R(0.0), R(4.5)]));

    let mut p = Polynomial::new(vec![R(0.0), R(0.0), R(0.0), R(0.0)]);
    p.reduce();
    assert_eq!(p, Polynomial::new(vec![]));
}

#[test]
fn reduce_twice() {
    let mut p = Polynomial::new(vec![1, 0, 2, 4, 0, 0]);
    p.reduce();
    assert_eq!(p, Polynomial::new(vec![1, 0, 2, 4]));
    p.reduce();
    assert_eq!(p, Polynomial::new(vec![1, 0, 2, 4]));
}

#[test]
fn set_degree_bound_pads() {
    let mut p = Polynomial::new(vec![5, 2, 0, 1]);
    assert_eq!(p.degree_bound(), 3);

    p.set_degree_bound(6);
    assert_eq!(p, Polynomial::new(vec![5, 2, 0, 1, 0, 0, 0]));
    assert_eq!(p.degree_bound(), 6);

    // never truncates
    p.set_degree_bound(4);
    assert_eq!(p, Polynomial::new(vec![5, 2, 0, 1, 0, 0, 0]));

    // an all-zero polynomial has the sentinel degree bound and stays as it is
    let mut z = Polynomial::new(vec![0, 0]);
    z.set_degree_bound(5);
    assert_eq!(z, Polynomial::new(vec![0, 0]));
}

#[test]
fn sub() {
    let p = Polynomial::new(vec![5, 7, 9]);
    let q = Polynomial::new(vec![1, 2, 4, 8]);
    assert_eq!(p - q, Polynomial::new(vec![4, 5, 5, 8]));
}
