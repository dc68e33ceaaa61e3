//! Number capabilities: additive identity, multiplicative identity, and
//! closure under addition, subtraction and multiplication.
//!
//! The executable operations of [`Num`] are total: on the fixed-width integer
//! types they are the wrapping (modular) operations, so no input can make
//! them fail.  Each implementation also proves the algebraic laws
//! (`x + 0 == x`, `x * 1 == x`, `x * 0 == 0`, commutativity and
//! associativity of addition, commutativity of multiplication) of its
//! `*_spec` functions, which is what makes the generic polynomial and
//! transform lemmas possible.
use vstd::prelude::*;

verus! {

/// Additive identity: `x + 0 == x` and `0 + x == x` for every `x`.
pub trait Zero: Sized {
    /// The zero element, at the specification level.
    spec fn zero_spec() -> Self;

    /// Returns the zero element of the structure.
    fn zero() -> (r: Self)
        ensures
            r == Self::zero_spec(),
    ;
}

/// Multiplicative identity: `x * 1 == x` and `1 * x == x` for every `x`.
pub trait One: Sized {
    /// The one element, at the specification level.
    spec fn one_spec() -> Self;

    /// Returns the one element of the structure.
    fn one() -> (r: Self)
        ensures
            r == Self::one_spec(),
    ;
}

/// Typical numerical trait assembling the most important capabilities: the
/// two identities, equality, and closed addition, subtraction and
/// multiplication.
pub trait Num: Zero + One + Copy {
    /// The sum of `self` and `rhs`, at the specification level.
    spec fn add_spec(self, rhs: Self) -> Self;

    /// The difference of `self` and `rhs`, at the specification level.
    spec fn sub_spec(self, rhs: Self) -> Self;

    /// The product of `self` and `rhs`, at the specification level.
    spec fn mul_spec(self, rhs: Self) -> Self;

    /// Addition.
    fn add(self, rhs: Self) -> (r: Self)
        ensures
            r == self.add_spec(rhs),
    ;

    /// Subtraction.
    fn sub(self, rhs: Self) -> (r: Self)
        ensures
            r == self.sub_spec(rhs),
    ;

    /// Multiplication.
    fn mul(self, rhs: Self) -> (r: Self)
        ensures
            r == self.mul_spec(rhs),
    ;

    /// Equality test.
    fn eq_val(self, rhs: Self) -> (r: bool)
        ensures
            r == (self == rhs),
    ;

    /// Zero is an additive identity on both sides.
    proof fn lemma_add_zero(x: Self)
        ensures
            x.add_spec(Self::zero_spec()) == x,
            Self::zero_spec().add_spec(x) == x,
    ;

    /// One is a multiplicative identity on both sides.
    proof fn lemma_mul_one(x: Self)
        ensures
            x.mul_spec(Self::one_spec()) == x,
            Self::one_spec().mul_spec(x) == x,
    ;

    /// Zero annihilates products.
    proof fn lemma_mul_zero(x: Self)
        ensures
            x.mul_spec(Self::zero_spec()) == Self::zero_spec(),
            Self::zero_spec().mul_spec(x) == Self::zero_spec(),
    ;

    /// Addition is commutative.
    proof fn lemma_add_comm(x: Self, y: Self)
        ensures
            x.add_spec(y) == y.add_spec(x),
    ;

    /// Addition is associative.
    proof fn lemma_add_assoc(x: Self, y: Self, z: Self)
        ensures
            x.add_spec(y).add_spec(z) == x.add_spec(y.add_spec(z)),
    ;

    /// Multiplication is commutative.
    proof fn lemma_mul_comm(x: Self, y: Self)
        ensures
            x.mul_spec(y) == y.mul_spec(x),
    ;
}

impl Zero for u32 {
    open spec fn zero_spec() -> u32 {
        0u32
    }

    fn zero() -> u32 {
        0
    }
}

impl One for u32 {
    open spec fn one_spec() -> u32 {
        1u32
    }

    fn one() -> u32 {
        1
    }
}

impl Num for u32 {
    open spec fn add_spec(self, rhs: u32) -> u32 {
        vstd::wrapping::u32_specs::wrapping_add(self, rhs)
    }

    open spec fn sub_spec(self, rhs: u32) -> u32 {
        vstd::wrapping::u32_specs::wrapping_sub(self, rhs)
    }

    open spec fn mul_spec(self, rhs: u32) -> u32 {
        vstd::wrapping::u32_specs::wrapping_mul(self, rhs)
    }

    fn add(self, rhs: u32) -> u32 {
        self.wrapping_add(rhs)
    }

    fn sub(self, rhs: u32) -> u32 {
        self.wrapping_sub(rhs)
    }

    fn mul(self, rhs: u32) -> u32 {
        self.wrapping_mul(rhs)
    }

    fn eq_val(self, rhs: u32) -> bool {
        self == rhs
    }

    proof fn lemma_add_zero(x: u32) {
    }

    proof fn lemma_mul_one(x: u32) {
        assert(x as nat * 1 == x as nat) by (nonlinear_arith);
        assert(x as nat % 0x1_0000_0000 as nat == x as nat);
    }

    proof fn lemma_mul_zero(x: u32) {
        assert(x as nat * 0 == 0) by (nonlinear_arith);
    }

    proof fn lemma_add_comm(x: u32, y: u32) {
    }

    proof fn lemma_add_assoc(x: u32, y: u32, z: u32) {
    }

    proof fn lemma_mul_comm(x: u32, y: u32) {
        assert(x as nat * y as nat == y as nat * x as nat) by (nonlinear_arith);
    }
}

impl Zero for i32 {
    open spec fn zero_spec() -> i32 {
        0i32
    }

    fn zero() -> i32 {
        0
    }
}

impl One for i32 {
    open spec fn one_spec() -> i32 {
        1i32
    }

    fn one() -> i32 {
        1
    }
}

impl Num for i32 {
    open spec fn add_spec(self, rhs: i32) -> i32 {
        vstd::wrapping::i32_specs::wrapping_add(self, rhs)
    }

    open spec fn sub_spec(self, rhs: i32) -> i32 {
        vstd::wrapping::i32_specs::wrapping_sub(self, rhs)
    }

    open spec fn mul_spec(self, rhs: i32) -> i32 {
        vstd::wrapping::i32_specs::wrapping_mul(self, rhs)
    }

    fn add(self, rhs: i32) -> i32 {
        self.wrapping_add(rhs)
    }

    fn sub(self, rhs: i32) -> i32 {
        self.wrapping_sub(rhs)
    }

    fn mul(self, rhs: i32) -> i32 {
        self.wrapping_mul(rhs)
    }

    fn eq_val(self, rhs: i32) -> bool {
        self == rhs
    }

    proof fn lemma_add_zero(x: i32) {
    }

    proof fn lemma_mul_one(x: i32) {
        assert(x * 1 == x) by (nonlinear_arith);
        assert(1 * x == x) by (nonlinear_arith);
    }

    proof fn lemma_mul_zero(x: i32) {
        assert(x * 0 == 0) by (nonlinear_arith);
        assert(0 * x == 0) by (nonlinear_arith);
    }

    proof fn lemma_add_comm(x: i32, y: i32) {
    }

    proof fn lemma_add_assoc(x: i32, y: i32, z: i32) {
    }

    proof fn lemma_mul_comm(x: i32, y: i32) {
        assert(x * y == y * x) by (nonlinear_arith);
    }
}

impl Zero for u8 {
    open spec fn zero_spec() -> u8 {
        0u8
    }

    fn zero() -> u8 {
        0
    }
}

impl One for u8 {
    open spec fn one_spec() -> u8 {
        1u8
    }

    fn one() -> u8 {
        1
    }
}

impl Num for u8 {
    open spec fn add_spec(self, rhs: u8) -> u8 {
        vstd::wrapping::u8_specs::wrapping_add(self, rhs)
    }

    open spec fn sub_spec(self, rhs: u8) -> u8 {
        vstd::wrapping::u8_specs::wrapping_sub(self, rhs)
    }

    open spec fn mul_spec(self, rhs: u8) -> u8 {
        vstd::wrapping::u8_specs::wrapping_mul(self, rhs)
    }

    fn add(self, rhs: u8) -> u8 {
        self.wrapping_add(rhs)
    }

    fn sub(self, rhs: u8) -> u8 {
        self.wrapping_sub(rhs)
    }

    fn mul(self, rhs: u8) -> u8 {
        self.wrapping_mul(rhs)
    }

    fn eq_val(self, rhs: u8) -> bool {
        self == rhs
    }

    proof fn lemma_add_zero(x: u8) {
    }

    proof fn lemma_mul_one(x: u8) {
        assert(x as nat * 1 == x as nat) by (nonlinear_arith);
        assert(x as nat % 0x100 as nat == x as nat);
    }

    proof fn lemma_mul_zero(x: u8) {
        assert(x as nat * 0 == 0) by (nonlinear_arith);
    }

    proof fn lemma_add_comm(x: u8, y: u8) {
    }

    proof fn lemma_add_assoc(x: u8, y: u8, z: u8) {
    }

    proof fn lemma_mul_comm(x: u8, y: u8) {
        assert(x as nat * y as nat == y as nat * x as nat) by (nonlinear_arith);
    }
}

impl Zero for u16 {
    open spec fn zero_spec() -> u16 {
        0u16
    }

    fn zero() -> u16 {
        0
    }
}

impl One for u16 {
    open spec fn one_spec() -> u16 {
        1u16
    }

    fn one() -> u16 {
        1
    }
}

impl Num for u16 {
    open spec fn add_spec(self, rhs: u16) -> u16 {
        vstd::wrapping::u16_specs::wrapping_add(self, rhs)
    }

    open spec fn sub_spec(self, rhs: u16) -> u16 {
        vstd::wrapping::u16_specs::wrapping_sub(self, rhs)
    }

    open spec fn mul_spec(self, rhs: u16) -> u16 {
        vstd::wrapping::u16_specs::wrapping_mul(self, rhs)
    }

    fn add(self, rhs: u16) -> u16 {
        self.wrapping_add(rhs)
    }

    fn sub(self, rhs: u16) -> u16 {
        self.wrapping_sub(rhs)
    }

    fn mul(self, rhs: u16) -> u16 {
        self.wrapping_mul(rhs)
    }

    fn eq_val(self, rhs: u16) -> bool {
        self == rhs
    }

    proof fn lemma_add_zero(x: u16) {
    }

    proof fn lemma_mul_one(x: u16) {
        assert(x as nat * 1 == x as nat) by (nonlinear_arith);
        assert(x as nat % 0x1_0000 as nat == x as nat);
    }

    proof fn lemma_mul_zero(x: u16) {
        assert(x as nat * 0 == 0) by (nonlinear_arith);
    }

    proof fn lemma_add_comm(x: u16, y: u16) {
    }

    proof fn lemma_add_assoc(x: u16, y: u16, z: u16) {
    }

    proof fn lemma_mul_comm(x: u16, y: u16) {
        assert(x as nat * y as nat == y as nat * x as nat) by (nonlinear_arith);
    }
}

impl Zero for u64 {
    open spec fn zero_spec() -> u64 {
        0u64
    }

    fn zero() -> u64 {
        0
    }
}

impl One for u64 {
    open spec fn one_spec() -> u64 {
        1u64
    }

    fn one() -> u64 {
        1
    }
}

impl Num for u64 {
    open spec fn add_spec(self, rhs: u64) -> u64 {
        vstd::wrapping::u64_specs::wrapping_add(self, rhs)
    }

    open spec fn sub_spec(self, rhs: u64) -> u64 {
        vstd::wrapping::u64_specs::wrapping_sub(self, rhs)
    }

    open spec fn mul_spec(self, rhs: u64) -> u64 {
        vstd::wrapping::u64_specs::wrapping_mul(self, rhs)
    }

    fn add(self, rhs: u64) -> u64 {
        self.wrapping_add(rhs)
    }

    fn sub(self, rhs: u64) -> u64 {
        self.wrapping_sub(rhs)
    }

    fn mul(self, rhs: u64) -> u64 {
        self.wrapping_mul(rhs)
    }

    fn eq_val(self, rhs: u64) -> bool {
        self == rhs
    }

    proof fn lemma_add_zero(x: u64) {
    }

    proof fn lemma_mul_one(x: u64) {
        assert(x as nat * 1 == x as nat) by (nonlinear_arith);
        assert(x as nat % 0x1_0000_0000_0000_0000 as nat == x as nat);
    }

    proof fn lemma_mul_zero(x: u64) {
        assert(x as nat * 0 == 0) by (nonlinear_arith);
    }

    proof fn lemma_add_comm(x: u64, y: u64) {
    }

    proof fn lemma_add_assoc(x: u64, y: u64, z: u64) {
    }

    proof fn lemma_mul_comm(x: u64, y: u64) {
        assert(x as nat * y as nat == y as nat * x as nat) by (nonlinear_arith);
    }
}

impl Zero for usize {
    open spec fn zero_spec() -> usize {
        0usize
    }

    fn zero() -> usize {
        0
    }
}

impl One for usize {
    open spec fn one_spec() -> usize {
        1usize
    }

    fn one() -> usize {
        1
    }
}

impl Num for usize {
    open spec fn add_spec(self, rhs: usize) -> usize {
        vstd::wrapping::usize_specs::wrapping_add(self, rhs)
    }

    open spec fn sub_spec(self, rhs: usize) -> usize {
        vstd::wrapping::usize_specs::wrapping_sub(self, rhs)
    }

    open spec fn mul_spec(self, rhs: usize) -> usize {
        vstd::wrapping::usize_specs::wrapping_mul(self, rhs)
    }

    fn add(self, rhs: usize) -> usize {
        self.wrapping_add(rhs)
    }

    fn sub(self, rhs: usize) -> usize {
        self.wrapping_sub(rhs)
    }

    fn mul(self, rhs: usize) -> usize {
        self.wrapping_mul(rhs)
    }

    fn eq_val(self, rhs: usize) -> bool {
        self == rhs
    }

    proof fn lemma_add_zero(x: usize) {
    }

    proof fn lemma_mul_one(x: usize) {
        assert(x as nat * 1 == x as nat) by (nonlinear_arith);
        vstd::arithmetic::div_mod::lemma_small_mod(x as nat, usize::MAX as nat + 1);
    }

    proof fn lemma_mul_zero(x: usize) {
        assert(x as nat * 0 == 0) by (nonlinear_arith);
        vstd::arithmetic::div_mod::lemma_small_mod(0, usize::MAX as nat + 1);
    }

    proof fn lemma_add_comm(x: usize, y: usize) {
    }

    proof fn lemma_add_assoc(x: usize, y: usize, z: usize) {
    }

    proof fn lemma_mul_comm(x: usize, y: usize) {
        assert(x as nat * y as nat == y as nat * x as nat) by (nonlinear_arith);
    }
}

impl Zero for i8 {
    open spec fn zero_spec() -> i8 {
        0i8
    }

    fn zero() -> i8 {
        0
    }
}

impl One for i8 {
    open spec fn one_spec() -> i8 {
        1i8
    }

    fn one() -> i8 {
        1
    }
}

impl Num for i8 {
    open spec fn add_spec(self, rhs: i8) -> i8 {
        vstd::wrapping::i8_specs::wrapping_add(self, rhs)
    }

    open spec fn sub_spec(self, rhs: i8) -> i8 {
        vstd::wrapping::i8_specs::wrapping_sub(self, rhs)
    }

    open spec fn mul_spec(self, rhs: i8) -> i8 {
        vstd::wrapping::i8_specs::wrapping_mul(self, rhs)
    }

    fn add(self, rhs: i8) -> i8 {
        self.wrapping_add(rhs)
    }

    fn sub(self, rhs: i8) -> i8 {
        self.wrapping_sub(rhs)
    }

    fn mul(self, rhs: i8) -> i8 {
        self.wrapping_mul(rhs)
    }

    fn eq_val(self, rhs: i8) -> bool {
        self == rhs
    }

    proof fn lemma_add_zero(x: i8) {
    }

    proof fn lemma_mul_one(x: i8) {
        assert(x * 1 == x) by (nonlinear_arith);
        assert(1 * x == x) by (nonlinear_arith);
    }

    proof fn lemma_mul_zero(x: i8) {
        assert(x * 0 == 0) by (nonlinear_arith);
        assert(0 * x == 0) by (nonlinear_arith);
    }

    proof fn lemma_add_comm(x: i8, y: i8) {
    }

    proof fn lemma_add_assoc(x: i8, y: i8, z: i8) {
    }

    proof fn lemma_mul_comm(x: i8, y: i8) {
        assert(x * y == y * x) by (nonlinear_arith);
    }
}
impl Zero for i16 {
    open spec fn zero_spec() -> i16 {
        0i16
    }

    fn zero() -> i16 {
        0
    }
}

impl One for i16 {
    open spec fn one_spec() -> i16 {
        1i16
    }

    fn one() -> i16 {
        1
    }
}

impl Num for i16 {
    open spec fn add_spec(self, rhs: i16) -> i16 {
        vstd::wrapping::i16_specs::wrapping_add(self, rhs)
    }

    open spec fn sub_spec(self, rhs: i16) -> i16 {
        vstd::wrapping::i16_specs::wrapping_sub(self, rhs)
    }

    open spec fn mul_spec(self, rhs: i16) -> i16 {
        vstd::wrapping::i16_specs::wrapping_mul(self, rhs)
    }

    fn add(self, rhs: i16) -> i16 {
        self.wrapping_add(rhs)
    }

    fn sub(self, rhs: i16) -> i16 {
        self.wrapping_sub(rhs)
    }

    fn mul(self, rhs: i16) -> i16 {
        self.wrapping_mul(rhs)
    }

    fn eq_val(self, rhs: i16) -> bool {
        self == rhs
    }

    proof fn lemma_add_zero(x: i16) {
    }

    proof fn lemma_mul_one(x: i16) {
        assert(x * 1 == x) by (nonlinear_arith);
        assert(1 * x == x) by (nonlinear_arith);
    }

    proof fn lemma_mul_zero(x: i16) {
        assert(x * 0 == 0) by (nonlinear_arith);
        assert(0 * x == 0) by (nonlinear_arith);
    }

    proof fn lemma_add_comm(x: i16, y: i16) {
    }

    proof fn lemma_add_assoc(x: i16, y: i16, z: i16) {
    }

    proof fn lemma_mul_comm(x: i16, y: i16) {
        assert(x * y == y * x) by (nonlinear_arith);
    }
}
impl Zero for i64 {
    open spec fn zero_spec() -> i64 {
        0i64
    }

    fn zero() -> i64 {
        0
    }
}

impl One for i64 {
    open spec fn one_spec() -> i64 {
        1i64
    }

    fn one() -> i64 {
        1
    }
}

impl Num for i64 {
    open spec fn add_spec(self, rhs: i64) -> i64 {
        vstd::wrapping::i64_specs::wrapping_add(self, rhs)
    }

    open spec fn sub_spec(self, rhs: i64) -> i64 {
        vstd::wrapping::i64_specs::wrapping_sub(self, rhs)
    }

    open spec fn mul_spec(self, rhs: i64) -> i64 {
        vstd::wrapping::i64_specs::wrapping_mul(self, rhs)
    }

    fn add(self, rhs: i64) -> i64 {
        self.wrapping_add(rhs)
    }

    fn sub(self, rhs: i64) -> i64 {
        self.wrapping_sub(rhs)
    }

    fn mul(self, rhs: i64) -> i64 {
        self.wrapping_mul(rhs)
    }

    fn eq_val(self, rhs: i64) -> bool {
        self == rhs
    }

    proof fn lemma_add_zero(x: i64) {
    }

    proof fn lemma_mul_one(x: i64) {
        assert(x * 1 == x) by (nonlinear_arith);
        assert(1 * x == x) by (nonlinear_arith);
    }

    proof fn lemma_mul_zero(x: i64) {
        assert(x * 0 == 0) by (nonlinear_arith);
        assert(0 * x == 0) by (nonlinear_arith);
    }

    proof fn lemma_add_comm(x: i64, y: i64) {
    }

    proof fn lemma_add_assoc(x: i64, y: i64, z: i64) {
    }

    proof fn lemma_mul_comm(x: i64, y: i64) {
        assert(x * y == y * x) by (nonlinear_arith);
    }
}
impl Zero for isize {
    open spec fn zero_spec() -> isize {
        0isize
    }

    fn zero() -> isize {
        0
    }
}

impl One for isize {
    open spec fn one_spec() -> isize {
        1isize
    }

    fn one() -> isize {
        1
    }
}

impl Num for isize {
    open spec fn add_spec(self, rhs: isize) -> isize {
        vstd::wrapping::isize_specs::wrapping_add(self, rhs)
    }

    open spec fn sub_spec(self, rhs: isize) -> isize {
        vstd::wrapping::isize_specs::wrapping_sub(self, rhs)
    }

    open spec fn mul_spec(self, rhs: isize) -> isize {
        vstd::wrapping::isize_specs::wrapping_mul(self, rhs)
    }

    fn add(self, rhs: isize) -> isize {
        self.wrapping_add(rhs)
    }

    fn sub(self, rhs: isize) -> isize {
        self.wrapping_sub(rhs)
    }

    fn mul(self, rhs: isize) -> isize {
        self.wrapping_mul(rhs)
    }

    fn eq_val(self, rhs: isize) -> bool {
        self == rhs
    }

    proof fn lemma_add_zero(x: isize) {
    }

    proof fn lemma_mul_one(x: isize) {
        assert(x * 1 == x) by (nonlinear_arith);
        assert(1 * x == x) by (nonlinear_arith);
        let r = usize::MAX as int + 1;
        if x >= 0 {
            vstd::arithmetic::div_mod::lemma_small_mod(x as nat, r as nat);
        } else {
            vstd::arithmetic::div_mod::lemma_mod_add_multiples_vanish(x as int, r);
            vstd::arithmetic::div_mod::lemma_small_mod((x + r) as nat, r as nat);
        }
    }

    proof fn lemma_mul_zero(x: isize) {
        assert(x * 0 == 0) by (nonlinear_arith);
        assert(0 * x == 0) by (nonlinear_arith);
        vstd::arithmetic::div_mod::lemma_small_mod(0, usize::MAX as nat + 1);
    }

    proof fn lemma_add_comm(x: isize, y: isize) {
    }

    proof fn lemma_add_assoc(x: isize, y: isize, z: isize) {
    }

    proof fn lemma_mul_comm(x: isize, y: isize) {
        assert(x * y == y * x) by (nonlinear_arith);
    }
}

impl Zero for u128 {
    open spec fn zero_spec() -> u128 {
        0u128
    }

    fn zero() -> u128 {
        0
    }
}

impl One for u128 {
    open spec fn one_spec() -> u128 {
        1u128
    }

    fn one() -> u128 {
        1
    }
}

impl Num for u128 {
    open spec fn add_spec(self, rhs: u128) -> u128 {
        vstd::wrapping::u128_specs::wrapping_add(self, rhs)
    }

    open spec fn sub_spec(self, rhs: u128) -> u128 {
        vstd::wrapping::u128_specs::wrapping_sub(self, rhs)
    }

    open spec fn mul_spec(self, rhs: u128) -> u128 {
        vstd::wrapping::u128_specs::wrapping_mul(self, rhs)
    }

    fn add(self, rhs: u128) -> u128 {
        self.wrapping_add(rhs)
    }

    fn sub(self, rhs: u128) -> u128 {
        self.wrapping_sub(rhs)
    }

    fn mul(self, rhs: u128) -> u128 {
        self.wrapping_mul(rhs)
    }

    fn eq_val(self, rhs: u128) -> bool {
        self == rhs
    }

    proof fn lemma_add_zero(x: u128) {
    }

    proof fn lemma_mul_one(x: u128) {
        assert(x as nat * 1 == x as nat) by (nonlinear_arith);
        assert(x as nat % 0x1_0000_0000_0000_0000_0000_0000_0000_0000 as nat == x as nat);
    }

    proof fn lemma_mul_zero(x: u128) {
        assert(x as nat * 0 == 0) by (nonlinear_arith);
    }

    proof fn lemma_add_comm(x: u128, y: u128) {
    }

    proof fn lemma_add_assoc(x: u128, y: u128, z: u128) {
    }

    proof fn lemma_mul_comm(x: u128, y: u128) {
        assert(x as nat * y as nat == y as nat * x as nat) by (nonlinear_arith);
    }
}

impl Zero for i128 {
    open spec fn zero_spec() -> i128 {
        0i128
    }

    fn zero() -> i128 {
        0
    }
}

impl One for i128 {
    open spec fn one_spec() -> i128 {
        1i128
    }

    fn one() -> i128 {
        1
    }
}

impl Num for i128 {
    open spec fn add_spec(self, rhs: i128) -> i128 {
        vstd::wrapping::i128_specs::wrapping_add(self, rhs)
    }

    open spec fn sub_spec(self, rhs: i128) -> i128 {
        vstd::wrapping::i128_specs::wrapping_sub(self, rhs)
    }

    open spec fn mul_spec(self, rhs: i128) -> i128 {
        vstd::wrapping::i128_specs::wrapping_mul(self, rhs)
    }

    fn add(self, rhs: i128) -> i128 {
        self.wrapping_add(rhs)
    }

    fn sub(self, rhs: i128) -> i128 {
        self.wrapping_sub(rhs)
    }

    fn mul(self, rhs: i128) -> i128 {
        self.wrapping_mul(rhs)
    }

    fn eq_val(self, rhs: i128) -> bool {
        self == rhs
    }

    proof fn lemma_add_zero(x: i128) {
    }

    proof fn lemma_mul_one(x: i128) {
        assert(x * 1 == x) by (nonlinear_arith);
        assert(1 * x == x) by (nonlinear_arith);
    }

    proof fn lemma_mul_zero(x: i128) {
        assert(x * 0 == 0) by (nonlinear_arith);
        assert(0 * x == 0) by (nonlinear_arith);
    }

    proof fn lemma_add_comm(x: i128, y: i128) {
    }

    proof fn lemma_add_assoc(x: i128, y: i128, z: i128) {
    }

    proof fn lemma_mul_comm(x: i128, y: i128) {
        assert(x * y == y * x) by (nonlinear_arith);
    }
}

} // verus!
