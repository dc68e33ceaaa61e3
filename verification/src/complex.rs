//! An implementation of complex numbers over any numeric capability type.
use crate::num::{Num, One, Zero};
use vstd::prelude::*;

verus! {

/// Complex number: real and imaginary part drawn from the same numeric type.
#[derive(Clone, Copy, Debug, PartialEq)]
pub struct Complex<T: Num> {
    /// Real part
    pub re: T,
    /// Imaginary part
    pub im: T,
}

/// Component-wise sum of two complex numbers.
pub open spec fn c_add<T: Num>(a: Complex<T>, b: Complex<T>) -> Complex<T> {
    Complex { re: a.re.add_spec(b.re), im: a.im.add_spec(b.im) }
}

/// Component-wise difference of two complex numbers.
pub open spec fn c_sub<T: Num>(a: Complex<T>, b: Complex<T>) -> Complex<T> {
    Complex { re: a.re.sub_spec(b.re), im: a.im.sub_spec(b.im) }
}

/// Standard complex product: `(a + bi)(c + di) == (ac - bd) + (ad + bc)i`.
pub open spec fn c_mul<T: Num>(a: Complex<T>, b: Complex<T>) -> Complex<T> {
    Complex {
        re: a.re.mul_spec(b.re).sub_spec(a.im.mul_spec(b.im)),
        im: a.re.mul_spec(b.im).add_spec(a.im.mul_spec(b.re)),
    }
}

/// Negation of both components.
pub open spec fn c_neg<T: Num>(a: Complex<T>) -> Complex<T> {
    Complex {
        re: T::zero_spec().sub_spec(a.re),
        im: T::zero_spec().sub_spec(a.im),
    }
}

/// The complex zero.
pub open spec fn c_zero<T: Num>() -> Complex<T> {
    Complex { re: T::zero_spec(), im: T::zero_spec() }
}

/// The complex one.
pub open spec fn c_one<T: Num>() -> Complex<T> {
    Complex { re: T::one_spec(), im: T::zero_spec() }
}

impl<T: Num> Complex<T> {
    /// Create a new complex number.
    pub fn new(re: T, im: T) -> (r: Self)
        ensures
            r.re == re,
            r.im == im,
    {
        Complex { re, im }
    }

    /// Imaginary unit.
    pub fn i() -> (r: Self)
        ensures
            r.re == T::zero_spec(),
            r.im == T::one_spec(),
    {
        Complex::new(T::zero(), T::one())
    }

    /// Norm. Given a complex number `x == a + bi`, returns `a * a + b * b`
    /// (the squared modulus, not the square root).
    pub fn norm(x: Self) -> (r: T)
        ensures
            r == x.re.mul_spec(x.re).add_spec(x.im.mul_spec(x.im)),
    {
        x.re.mul(x.re).add(x.im.mul(x.im))
    }

    /// Given a real number `re`, returns the complex number `re + 0 * i`.
    pub fn from_real(re: T) -> (r: Self)
        ensures
            r.re == re,
            r.im == T::zero_spec(),
    {
        Complex::new(re, T::zero())
    }

    /// Given a vector of real numbers, returns the vector of complex numbers
    /// with the same real parts and zero imaginary parts, in the same order.
    pub fn from_real_vec(vec_re: Vec<T>) -> (r: Vec<Complex<T>>)
        ensures
            r@.len() == vec_re@.len(),
            forall|k: int|
                0 <= k < vec_re@.len() ==> (#[trigger] r@[k]).re == vec_re@[k] && r@[k].im
                    == T::zero_spec(),
    {
        let mut cpx_vec: Vec<Complex<T>> = Vec::new();
        let n = vec_re.len();
        for idx in 0..n
            invariant
                n == vec_re@.len(),
                cpx_vec@.len() == idx,
                forall|k: int|
                    0 <= k < idx ==> (#[trigger] cpx_vec@[k]).re == vec_re@[k] && cpx_vec@[k].im
                        == T::zero_spec(),
        {
            cpx_vec.push(Complex::from_real(vec_re[idx]));
        }
        cpx_vec
    }

    /// Complex conjugate of the given complex number: the imaginary part is
    /// negated.
    pub fn conj(self) -> (r: Self)
        ensures
            r.re == self.re,
            r.im == T::zero_spec().sub_spec(self.im),
    {
        Complex::new(self.re, T::zero().sub(self.im))
    }
}

impl<T: Num> Zero for Complex<T> {
    open spec fn zero_spec() -> Complex<T> {
        c_zero::<T>()
    }

    fn zero() -> Complex<T> {
        Complex::new(T::zero(), T::zero())
    }
}

impl<T: Num> vstd::std_specs::ops::AddSpecImpl<Complex<T>> for Complex<T> {
    open spec fn obeys_add_spec() -> bool {
        true
    }

    open spec fn add_req(self, rhs: Complex<T>) -> bool {
        true
    }

    open spec fn add_spec(self, rhs: Complex<T>) -> Complex<T> {
        c_add(self, rhs)
    }
}

impl<T: Num> core::ops::Add<Complex<T>> for Complex<T> {
    type Output = Complex<T>;

    /// Addition of complex numbers, component-wise.
    fn add(self, rhs: Complex<T>) -> Complex<T> {
        Complex::new(self.re.add(rhs.re), self.im.add(rhs.im))
    }
}

impl<T: Num> vstd::std_specs::ops::AddSpecImpl<T> for Complex<T> {
    open spec fn obeys_add_spec() -> bool {
        true
    }

    open spec fn add_req(self, rhs: T) -> bool {
        true
    }

    open spec fn add_spec(self, rhs: T) -> Complex<T> {
        Complex { re: self.re.add_spec(rhs), im: self.im }
    }
}

impl<T: Num> core::ops::Add<T> for Complex<T> {
    type Output = Complex<T>;

    /// Addition of a complex number and a real number: only the real part
    /// moves.
    fn add(self, rhs: T) -> Complex<T> {
        Complex::new(self.re.add(rhs), self.im)
    }
}

impl<T: Num> vstd::std_specs::ops::SubSpecImpl<Complex<T>> for Complex<T> {
    open spec fn obeys_sub_spec() -> bool {
        true
    }

    open spec fn sub_req(self, rhs: Complex<T>) -> bool {
        true
    }

    open spec fn sub_spec(self, rhs: Complex<T>) -> Complex<T> {
        c_sub(self, rhs)
    }
}

impl<T: Num> core::ops::Sub<Complex<T>> for Complex<T> {
    type Output = Complex<T>;

    /// Subtraction of complex numbers, component-wise.
    fn sub(self, rhs: Complex<T>) -> Complex<T> {
        Complex::new(self.re.sub(rhs.re), self.im.sub(rhs.im))
    }
}

impl<T: Num> vstd::std_specs::ops::SubSpecImpl<T> for Complex<T> {
    open spec fn obeys_sub_spec() -> bool {
        true
    }

    open spec fn sub_req(self, rhs: T) -> bool {
        true
    }

    open spec fn sub_spec(self, rhs: T) -> Complex<T> {
        Complex { re: self.re.sub_spec(rhs), im: self.im }
    }
}

impl<T: Num> core::ops::Sub<T> for Complex<T> {
    type Output = Complex<T>;

    /// Subtraction of a real number from a complex number: only the real
    /// part moves.
    fn sub(self, rhs: T) -> Complex<T> {
        Complex::new(self.re.sub(rhs), self.im)
    }
}

impl<T: Num> vstd::std_specs::ops::NegSpecImpl for Complex<T> {
    open spec fn obeys_neg_spec() -> bool {
        true
    }

    open spec fn neg_req(self) -> bool {
        true
    }

    open spec fn neg_spec(self) -> Complex<T> {
        c_neg(self)
    }
}

impl<T: Num> core::ops::Neg for Complex<T> {
    type Output = Complex<T>;

    /// Negation of both components.
    fn neg(self) -> Complex<T> {
        Complex::new(T::zero().sub(self.re), T::zero().sub(self.im))
    }
}

impl<T: Num> vstd::std_specs::ops::MulSpecImpl<Complex<T>> for Complex<T> {
    open spec fn obeys_mul_spec() -> bool {
        true
    }

    open spec fn mul_req(self, rhs: Complex<T>) -> bool {
        true
    }

    open spec fn mul_spec(self, rhs: Complex<T>) -> Complex<T> {
        c_mul(self, rhs)
    }
}

impl<T: Num> core::ops::Mul<Complex<T>> for Complex<T> {
    type Output = Complex<T>;

    /// Multiplication of complex numbers.
    fn mul(self, rhs: Complex<T>) -> Complex<T> {
        Complex::new(
            self.re.mul(rhs.re).sub(self.im.mul(rhs.im)),
            self.re.mul(rhs.im).add(self.im.mul(rhs.re)),
        )
    }
}

impl<T: Num> vstd::std_specs::ops::MulSpecImpl<T> for Complex<T> {
    open spec fn obeys_mul_spec() -> bool {
        true
    }

    open spec fn mul_req(self, rhs: T) -> bool {
        true
    }

    open spec fn mul_spec(self, rhs: T) -> Complex<T> {
        Complex { re: self.re.mul_spec(rhs), im: self.im.mul_spec(rhs) }
    }
}

impl<T: Num> core::ops::Mul<T> for Complex<T> {
    type Output = Complex<T>;

    /// Multiplication of a complex number by a real number, component-wise.
    fn mul(self, rhs: T) -> Complex<T> {
        Complex::new(self.re.mul(rhs), self.im.mul(rhs))
    }
}

} // verus!
