//! Polynomials in dense coefficient representation.
use crate::num::{Num, Zero};
use vstd::prelude::*;

verus! {

/// Polynomial representation using coefficients: the entry at index `i` is
/// the coefficient of `x^i`.  For instance `Polynomial::new(vec![4, 3, 2, 9])`
/// stands for `4 + 3 x + 2 x^2 + 9 x^3`.
#[derive(Debug, PartialEq, Clone)]
pub struct Polynomial<T: Num> {
    /// Vector containing the coefficients of the polynomial; the index
    /// corresponds to the variable's power.
    pub coeff: Vec<T>,
}

/// The coefficient at index `i`, reading zero outside the stored range.
pub open spec fn at<T: Num>(s: Seq<T>, i: int) -> T {
    if 0 <= i < s.len() {
        s[i]
    } else {
        T::zero_spec()
    }
}

/// Whether every stored coefficient equals zero.
pub open spec fn all_zero<T: Num>(s: Seq<T>) -> bool {
    forall|k: int| 0 <= k < s.len() ==> s[k] == T::zero_spec()
}

/// Index of the last coefficient different from zero, or `-1` if there is
/// none.
pub open spec fn last_nonzero<T: Num>(s: Seq<T>) -> int
    decreases s.len(),
{
    if s.len() == 0 {
        -1
    } else if s.last() != T::zero_spec() {
        s.len() - 1
    } else {
        last_nonzero(s.drop_last())
    }
}

/// The degree bound, with `usize::MAX` standing for the infinite degree of
/// an empty or everywhere-zero coefficient sequence.
pub open spec fn degree_bound_spec<T: Num>(s: Seq<T>) -> int {
    if s.len() == 0 || all_zero(s) {
        usize::MAX as int
    } else {
        s.len() - 1
    }
}

/// The degree, with `usize::MAX` standing for the infinite degree of a zero
/// polynomial.
pub open spec fn degree_spec<T: Num>(s: Seq<T>) -> int {
    if last_nonzero(s) == -1 {
        usize::MAX as int
    } else {
        last_nonzero(s)
    }
}

/// Evaluation at `x`: an empty polynomial is identically zero, and otherwise
/// `eval([a0, a1, ...], x) == a0 + x * eval([a1, ...], x)`, exactly the
/// bracketing of Horner's method.
pub open spec fn eval_spec<T: Num>(s: Seq<T>, x: T) -> T
    decreases s.len(),
{
    if s.len() == 0 {
        T::zero_spec()
    } else if s.len() == 1 {
        s[0]
    } else {
        s[0].add_spec(x.mul_spec(eval_spec(s.subrange(1, s.len() as int), x)))
    }
}

/// The canonical form: everything up to and including the last non-zero
/// coefficient, so the zero polynomial becomes the empty sequence.
pub open spec fn reduced<T: Num>(s: Seq<T>) -> Seq<T> {
    s.subrange(0, last_nonzero(s) + 1)
}

/// A sequence of `m` zero coefficients.
pub open spec fn zero_seq<T: Num>(m: int) -> Seq<T> {
    Seq::new(m as nat, |i: int| T::zero_spec())
}

/// What `set_degree_bound` produces: padding with trailing zeros up to
/// degree bound `n`, and otherwise the unchanged sequence.
pub open spec fn with_degree_bound<T: Num>(s: Seq<T>, n: int) -> Seq<T> {
    if degree_bound_spec(s) < n {
        s + zero_seq(n - degree_bound_spec(s))
    } else {
        s
    }
}

/// The coefficient sequence of the sum: pairwise addition by index, where
/// an index missing on one side keeps the other side's coefficient.
pub open spec fn add_coeffs<T: Num>(a: Seq<T>, b: Seq<T>) -> Seq<T> {
    Seq::new(
        if a.len() >= b.len() {
            a.len()
        } else {
            b.len()
        },
        |i: int|
            if i < a.len() && i < b.len() {
                a[i].add_spec(b[i])
            } else if i < a.len() {
                a[i]
            } else {
                b[i]
            },
    )
}

/// The coefficient sequence of the difference, with the same convention for
/// missing indices as the sum.
pub open spec fn sub_coeffs<T: Num>(a: Seq<T>, b: Seq<T>) -> Seq<T> {
    Seq::new(
        if a.len() >= b.len() {
            a.len()
        } else {
            b.len()
        },
        |i: int|
            if i < a.len() && i < b.len() {
                a[i].sub_spec(b[i])
            } else if i < a.len() {
                a[i]
            } else {
                b[i]
            },
    )
}

/// Running sum of the first `m` convolution terms of coefficient `k`:
/// `at(a, 0) * at(b, k) + ... + at(a, m - 1) * at(b, k - m + 1)`.
pub open spec fn conv_sum<T: Num>(a: Seq<T>, b: Seq<T>, k: int, m: int) -> T
    decreases m,
{
    if m <= 0 {
        T::zero_spec()
    } else {
        conv_sum(a, b, k, m - 1).add_spec(at(a, m - 1).mul_spec(at(b, k - (m - 1))))
    }
}

/// Coefficient `k` of the product: the full convolution sum over all splits
/// `k == i + j`.
pub open spec fn mul_coeff<T: Num>(a: Seq<T>, b: Seq<T>, k: int) -> T {
    conv_sum(a, b, k, k + 1)
}

/// The characterisation of `last_nonzero`: it lies inside the sequence, a
/// result of `-1` means every coefficient is zero, and everything past it
/// is zero.
pub proof fn lemma_last_nonzero<T: Num>(s: Seq<T>)
    ensures
        -1 <= last_nonzero(s) < s.len(),
        last_nonzero(s) == -1 ==> all_zero(s),
        last_nonzero(s) >= 0 ==> s[last_nonzero(s)] != T::zero_spec(),
        forall|k: int| last_nonzero(s) < k < s.len() ==> s[k] == T::zero_spec(),
    decreases s.len(),
{
    if s.len() == 0 {
    } else if s.last() != T::zero_spec() {
    } else {
        lemma_last_nonzero(s.drop_last());
        assert(forall|k: int| 0 <= k < s.len() - 1 ==> s[k] == s.drop_last()[k]);
    }
}

impl<T: Num> Polynomial<T> {
    /// Create a new polynomial out of a vector containing its coefficients,
    /// stored verbatim.
    pub fn new(coeff: Vec<T>) -> (r: Self)
        ensures
            r.coeff@ == coeff@,
    {
        Polynomial { coeff }
    }

    /// Degree bound: the length of the coefficient vector minus one, an
    /// upper bound for the actual degree.  If the coefficient vector is
    /// empty or consists entirely of zeros the degree is infinite, and
    /// `usize::MAX` is returned.
    pub fn degree_bound(&self) -> (r: usize)
        ensures
            r as int == degree_bound_spec(self.coeff@),
    {
        let n = self.coeff.len();
        if n == 0 {
            return usize::MAX;
        }
        for i in 0..n
            invariant
                n == self.coeff@.len(),
                forall|k: int| 0 <= k < i ==> self.coeff@[k] == T::zero_spec(),
        {
            if !self.coeff[i].eq_val(T::zero()) {
                return n - 1;
            }
        }
        usize::MAX
    }

    /// Degree of the polynomial: the index of the last non-zero
    /// coefficient.  If the coefficient vector is empty or entirely zero,
    /// the degree is infinite and `usize::MAX` is returned.
    pub fn degree(&self) -> (r: usize)
        ensures
            r as int == degree_spec(self.coeff@),
    {
        proof {
            lemma_last_nonzero(self.coeff@);
        }
        let mut idx = self.coeff.len();
        while idx > 0
            invariant
                idx <= self.coeff@.len(),
                forall|k: int| idx <= k < self.coeff@.len() ==> self.coeff@[k] == T::zero_spec(),
            decreases idx,
        {
            if !self.coeff[idx - 1].eq_val(T::zero()) {
                assert(last_nonzero(self.coeff@) == idx - 1) by {
                    lemma_last_nonzero(self.coeff@);
                }
                return idx - 1;
            }
            idx = idx - 1;
        }
        usize::MAX
    }

    /// Evaluate the polynomial at a given point `x` of the domain, by
    /// Horner's method.
    pub fn eval(&self, x: T) -> (r: T)
        ensures
            r == eval_spec(self.coeff@, x),
    {
        let l = self.coeff.len();
        if l == 0 {
            // Empty polynomials are identically zero
            return T::zero();
        }
        let mut acc = self.coeff[l - 1];
        let mut idx = l - 1;
        while idx > 0
            invariant
                l == self.coeff@.len(),
                0 <= idx < l,
                acc == eval_spec(self.coeff@.subrange(idx as int, l as int), x),
            decreases idx,
        {
            idx = idx - 1;
            acc = self.coeff[idx].add(x.mul(acc));
            proof {
                let s = self.coeff@;
                let tail = s.subrange(idx as int, l as int);
                assert(tail.subrange(1, tail.len() as int) =~= s.subrange(idx + 1, l as int));
            }
        }
        assert(self.coeff@.subrange(0, l as int) =~= self.coeff@);
        acc
    }

    /// Reduces the coefficient representation of the polynomial, in place:
    /// the trailing zero coefficients are truncated away, and a polynomial
    /// with no non-zero coefficient becomes the empty polynomial.  Doing it
    /// twice is the same as doing it once.
    pub fn reduce(&mut self)
        ensures
            final(self).coeff@ == reduced(old(self).coeff@),
    {
        proof {
            lemma_last_nonzero(old(self).coeff@);
        }
        let mut idx = self.coeff.len();
        while idx > 0 && self.coeff[idx - 1].eq_val(T::zero())
            invariant
                self == old(self),
                idx <= self.coeff@.len(),
                forall|k: int| idx <= k < self.coeff@.len() ==> self.coeff@[k] == T::zero_spec(),
            decreases idx,
        {
            idx = idx - 1;
        }
        proof {
            lemma_last_nonzero(self.coeff@);
            assert(idx as int == last_nonzero(self.coeff@) + 1);
        }
        // Truncate so that the last non-zero coefficient is spared; when no
        // index was found this empties the coefficients.
        self.coeff.truncate(idx);
    }

    /// Set degree bound: given a degree bound `n`, appends zeros to the
    /// tail of the coefficient vector until the degree bound reaches `n`;
    /// if `n` does not exceed the current degree bound, nothing happens (in
    /// particular the coefficients are never truncated).
    pub fn set_degree_bound(&mut self, n: usize)
        ensures
            final(self).coeff@ == with_degree_bound(old(self).coeff@, n as int),
    {
        let db = self.degree_bound();
        let add_to_len = if n > db {
            n - db
        } else {
            0
        };
        let mut pushed: usize = 0;
        while pushed < add_to_len
            invariant
                self.coeff@ == old(self).coeff@ + zero_seq::<T>(pushed as int),
                pushed <= add_to_len,
            decreases add_to_len - pushed,
        {
            self.coeff.push(T::zero());
            pushed = pushed + 1;
            proof {
                assert(self.coeff@ =~= old(self).coeff@ + zero_seq::<T>(pushed as int));
            }
        }
        proof {
            assert(self.coeff@ =~= with_degree_bound(old(self).coeff@, n as int));
        }
    }
}

/// The whole coefficient sequence of the product: empty when either factor
/// is empty (the zero polynomial annihilates any product), and otherwise of
/// length `a.len() + b.len() - 1` with the convolution coefficients.
pub open spec fn mul_coeffs<T: Num>(a: Seq<T>, b: Seq<T>) -> Seq<T> {
    if a.len() == 0 || b.len() == 0 {
        Seq::empty()
    } else {
        Seq::new((a.len() + b.len() - 1) as nat, |k: int| mul_coeff(a, b, k))
    }
}

/// The first `m` convolution terms of coefficient `k`, as a sequence.
pub open spec fn conv_terms<T: Num>(a: Seq<T>, b: Seq<T>, k: int, m: int) -> Seq<T> {
    Seq::new(
        if m >= 0 {
            m as nat
        } else {
            0
        },
        |t: int| at(a, t).mul_spec(at(b, k - t)),
    )
}

/// Left-fold sum of a sequence of values, starting from zero.
pub open spec fn seq_sum<T: Num>(s: Seq<T>) -> T
    decreases s.len(),
{
    if s.len() == 0 {
        T::zero_spec()
    } else {
        seq_sum(s.drop_last()).add_spec(s.last())
    }
}

/// The sequence read backwards.
pub open spec fn seq_rev<T>(s: Seq<T>) -> Seq<T> {
    Seq::new(s.len(), |i: int| s[s.len() - 1 - i])
}

/// The first summand can be split off:
/// `sum(s) == sum(s[1..]) + s[0]` for a non-empty `s`.
proof fn lemma_seq_sum_pull_first<T: Num>(s: Seq<T>)
    requires
        s.len() >= 1,
    ensures
        seq_sum(s) == seq_sum(s.drop_first()).add_spec(s[0]),
    decreases s.len(),
{
    if s.len() == 1 {
        assert(s.drop_first() =~= Seq::<T>::empty());
        assert(s.drop_last() =~= Seq::<T>::empty());
        assert(seq_sum(Seq::<T>::empty()) == T::zero_spec());
        assert(s.last() == s[0]);
        assert(seq_sum(s) == T::zero_spec().add_spec(s[0]));
        assert(seq_sum(s.drop_first()) == T::zero_spec());
    } else {
        lemma_seq_sum_pull_first(s.drop_last());
        assert(s.drop_last().drop_first() =~= s.drop_first().drop_last());
        let a = seq_sum(s.drop_first().drop_last());
        let x = s[0];
        let y = s.last();
        T::lemma_add_assoc(a, x, y);
        T::lemma_add_comm(x, y);
        T::lemma_add_assoc(a, y, x);
        assert(s.drop_first().last() == y);
        assert(seq_sum(s.drop_last()) == a.add_spec(x));
        assert(seq_sum(s) == a.add_spec(x).add_spec(y));
        assert(a.add_spec(x).add_spec(y) == a.add_spec(x.add_spec(y)));
        assert(x.add_spec(y) == y.add_spec(x));
        assert(a.add_spec(y).add_spec(x) == a.add_spec(y.add_spec(x)));
        assert(seq_sum(s.drop_first()) == a.add_spec(y));
        assert(seq_sum(s) == seq_sum(s.drop_first()).add_spec(s[0]));
    }
}

/// A sum is invariant under reversing the order of its terms.
proof fn lemma_seq_sum_rev<T: Num>(s: Seq<T>)
    ensures
        seq_sum(seq_rev(s)) == seq_sum(s),
    decreases s.len(),
{
    if s.len() >= 1 {
        lemma_seq_sum_rev(s.drop_first());
        assert(seq_rev(s).drop_last() =~= seq_rev(s.drop_first()));
        assert(seq_rev(s).last() == s[0]);
        lemma_seq_sum_pull_first(s);
    }
}

/// The running convolution sum is the sum of the term sequence.
proof fn lemma_conv_sum_is_seq_sum<T: Num>(a: Seq<T>, b: Seq<T>, k: int, m: int)
    requires
        m >= 0,
    ensures
        conv_sum(a, b, k, m) == seq_sum(conv_terms(a, b, k, m)),
    decreases m,
{
    if m > 0 {
        lemma_conv_sum_is_seq_sum(a, b, k, m - 1);
        assert(conv_terms(a, b, k, m).drop_last() =~= conv_terms(a, b, k, m - 1));
    }
}

/// Convolution is commutative, coefficient by coefficient: the terms of
/// `b * a` are the terms of `a * b` read backwards.
pub proof fn lemma_mul_coeff_comm<T: Num>(a: Seq<T>, b: Seq<T>, k: int)
    requires
        k >= 0,
    ensures
        mul_coeff(a, b, k) == mul_coeff(b, a, k),
{
    lemma_conv_sum_is_seq_sum(a, b, k, k + 1);
    lemma_conv_sum_is_seq_sum(b, a, k, k + 1);
    assert forall|t: int| 0 <= t < k + 1 implies #[trigger] conv_terms(b, a, k, k + 1)[t]
        == seq_rev(conv_terms(a, b, k, k + 1))[t] by {
        T::lemma_mul_comm(at(b, t), at(a, k - t));
    }
    assert(conv_terms(b, a, k, k + 1) =~= seq_rev(conv_terms(a, b, k, k + 1)));
    lemma_seq_sum_rev(conv_terms(a, b, k, k + 1));
}

/// A convolution term whose index lies outside either factor contributes
/// nothing to the running sum.
proof fn lemma_conv_dead_term<T: Num>(a: Seq<T>, b: Seq<T>, k: int, m: int)
    requires
        at(a, m) == T::zero_spec() || at(b, k - m) == T::zero_spec(),
    ensures
        conv_sum(a, b, k, m + 1) == conv_sum(a, b, k, m),
{
    if at(a, m) == T::zero_spec() {
        T::lemma_mul_zero(at(b, k - m));
    } else {
        T::lemma_mul_zero(at(a, m));
    }
    T::lemma_add_zero(conv_sum(a, b, k, m));
}

/// Extending the running convolution sum over a range of dead terms does
/// not change it.
proof fn lemma_conv_dead_range<T: Num>(a: Seq<T>, b: Seq<T>, k: int, m1: int, m2: int)
    requires
        m1 <= m2,
        forall|t: int|
            m1 <= t < m2 ==> at(a, t) == T::zero_spec() || at(b, k - t) == T::zero_spec(),
    ensures
        conv_sum(a, b, k, m2) == conv_sum(a, b, k, m1),
    decreases m2 - m1,
{
    if m2 > m1 {
        lemma_conv_dead_range(a, b, k, m1, m2 - 1);
        lemma_conv_dead_term(a, b, k, m2 - 1);
    }
}

/// The running sum over the first factor's whole index range is already the
/// full convolution coefficient.
proof fn lemma_conv_sum_full<T: Num>(a: Seq<T>, b: Seq<T>, k: int)
    requires
        k >= 0,
    ensures
        conv_sum(a, b, k, a.len() as int) == mul_coeff(a, b, k),
{
    let la = a.len() as int;
    if la <= k + 1 {
        lemma_conv_dead_range(a, b, k, la, k + 1);
    } else {
        lemma_conv_dead_range(a, b, k, k + 1, la);
    }
}

// A polynomial holds its coefficients in a vector, which cannot be
// assembled at the specification level, so the operator's specification hook
// stays disabled; the exact contract stands on the operator implementation
// itself.
impl<T: Num> vstd::std_specs::ops::AddSpecImpl<Polynomial<T>> for Polynomial<T> {
    open spec fn obeys_add_spec() -> bool {
        false
    }

    open spec fn add_req(self, rhs: Polynomial<T>) -> bool {
        true
    }

    open spec fn add_spec(self, rhs: Polynomial<T>) -> Polynomial<T> {
        arbitrary()
    }
}

impl<T: Num> core::ops::Add<Polynomial<T>> for Polynomial<T> {
    type Output = Polynomial<T>;

    /// Addition of polynomials: pairwise by index, the longer operand's
    /// length gives the output length, and an index present on one side
    /// only keeps that side's coefficient.
    fn add(self, rhs: Polynomial<T>) -> (r: Polynomial<T>)
        ensures
            r.coeff@ == add_coeffs(self.coeff@, rhs.coeff@),
    {
        let la = self.coeff.len();
        let lb = rhs.coeff.len();
        let n = if la >= lb {
            la
        } else {
            lb
        };
        let mut coeff: Vec<T> = Vec::new();
        for idx in 0..n
            invariant
                la == self.coeff@.len(),
                lb == rhs.coeff@.len(),
                n == add_coeffs(self.coeff@, rhs.coeff@).len(),
                coeff@.len() == idx,
                forall|k: int|
                    0 <= k < idx ==> coeff@[k] == add_coeffs(self.coeff@, rhs.coeff@)[k],
        {
            if idx < la && idx < lb {
                coeff.push(self.coeff[idx].add(rhs.coeff[idx]));
            } else if idx < la {
                coeff.push(self.coeff[idx]);
            } else {
                coeff.push(rhs.coeff[idx]);
            }
        }
        proof {
            assert(coeff@ =~= add_coeffs(self.coeff@, rhs.coeff@));
        }
        Polynomial::new(coeff)
    }
}

// A polynomial holds its coefficients in a vector, which cannot be
// assembled at the specification level, so the operator's specification hook
// stays disabled; the exact contract stands on the operator implementation
// itself.
impl<T: Num> vstd::std_specs::ops::SubSpecImpl<Polynomial<T>> for Polynomial<T> {
    open spec fn obeys_sub_spec() -> bool {
        false
    }

    open spec fn sub_req(self, rhs: Polynomial<T>) -> bool {
        true
    }

    open spec fn sub_spec(self, rhs: Polynomial<T>) -> Polynomial<T> {
        arbitrary()
    }
}

impl<T: Num> core::ops::Sub<Polynomial<T>> for Polynomial<T> {
    type Output = Polynomial<T>;

    /// Subtraction of polynomials, with the same index convention as the
    /// sum.
    fn sub(self, rhs: Polynomial<T>) -> (r: Polynomial<T>)
        ensures
            r.coeff@ == sub_coeffs(self.coeff@, rhs.coeff@),
    {
        let la = self.coeff.len();
        let lb = rhs.coeff.len();
        let n = if la >= lb {
            la
        } else {
            lb
        };
        let mut coeff: Vec<T> = Vec::new();
        for idx in 0..n
            invariant
                la == self.coeff@.len(),
                lb == rhs.coeff@.len(),
                n == sub_coeffs(self.coeff@, rhs.coeff@).len(),
                coeff@.len() == idx,
                forall|k: int|
                    0 <= k < idx ==> coeff@[k] == sub_coeffs(self.coeff@, rhs.coeff@)[k],
        {
            if idx < la && idx < lb {
                coeff.push(self.coeff[idx].sub(rhs.coeff[idx]));
            } else if idx < la {
                coeff.push(self.coeff[idx]);
            } else {
                coeff.push(rhs.coeff[idx]);
            }
        }
        proof {
            assert(coeff@ =~= sub_coeffs(self.coeff@, rhs.coeff@));
        }
        Polynomial::new(coeff)
    }
}

// A polynomial holds its coefficients in a vector, which cannot be
// assembled at the specification level, so the operator's specification hook
// stays disabled; the exact contract stands on the operator implementation
// itself.
impl<T: Num> vstd::std_specs::ops::MulSpecImpl<Polynomial<T>> for Polynomial<T> {
    open spec fn obeys_mul_spec() -> bool {
        false
    }

    open spec fn mul_req(self, rhs: Polynomial<T>) -> bool {
        self.coeff@.len() + rhs.coeff@.len() <= usize::MAX as int + 1
    }

    open spec fn mul_spec(self, rhs: Polynomial<T>) -> Polynomial<T> {
        arbitrary()
    }
}

impl<T: Num> core::ops::Mul<Polynomial<T>> for Polynomial<T> {
    type Output = Polynomial<T>;

    /// Naive convolution, quadratic in the operand sizes: coefficient `k`
    /// of the output is the sum of all `a[i] * b[j]` with `i + j == k`; the
    /// product with an empty (zero) polynomial is the empty polynomial.
    fn mul(self, rhs: Polynomial<T>) -> (r: Polynomial<T>)
        ensures
            r.coeff@ == mul_coeffs(self.coeff@, rhs.coeff@),
    {
        let ghost a = self.coeff@;
        let ghost b = rhs.coeff@;
        let la = self.coeff.len();
        let lb = rhs.coeff.len();
        if la == 0 || lb == 0 {
            // The product of a polynomial by a zero polynomial is always zero
            return Polynomial::new(Vec::new());
        }
        let n = la - 1 + lb;
        let mut coeff: Vec<T> = Vec::new();
        while coeff.len() < n
            invariant
                n == la + lb - 1,
                coeff@.len() <= n,
                forall|k: int| 0 <= k < coeff@.len() ==> coeff@[k] == T::zero_spec(),
            decreases n - coeff@.len(),
        {
            coeff.push(T::zero());
        }
        assert(forall|k: int| 0 <= k < n ==> coeff@[k] == conv_sum(a, b, k, 0));
        for i in 0..la
            invariant
                la == a.len(),
                lb == b.len(),
                a == self.coeff@,
                b == rhs.coeff@,
                n == la + lb - 1,
                coeff@.len() == n,
                forall|k: int| 0 <= k < n ==> coeff@[k] == conv_sum(a, b, k, i as int),
        {
            for j in 0..lb
                invariant
                    la == a.len(),
                    lb == b.len(),
                    a == self.coeff@,
                    b == rhs.coeff@,
                    n == la + lb - 1,
                    0 <= i < la,
                    coeff@.len() == n,
                    forall|k: int|
                        i <= k < i + j ==> coeff@[k] == conv_sum(a, b, k, i as int + 1),
                    forall|k: int|
                        0 <= k < n && !(i <= k < i + j) ==> coeff@[k] == conv_sum(
                            a,
                            b,
                            k,
                            i as int,
                        ),
            {
                let idx = i + j;
                let cur = coeff[idx];
                let nv = cur.add(self.coeff[i].mul(rhs.coeff[j]));
                coeff[idx] = nv;
                proof {
                    assert(at(a, i as int) == a[i as int]);
                    assert(at(b, idx - i) == b[j as int]);
                }
            }
            proof {
                assert forall|k: int| 0 <= k < n && !(i <= k < i + lb) implies coeff@[k]
                    == conv_sum(a, b, k, i as int + 1) by {
                    assert(at(b, k - i) == T::zero_spec());
                    lemma_conv_dead_term(a, b, k, i as int);
                }
            }
        }
        proof {
            assert forall|k: int| 0 <= k < n implies coeff@[k] == mul_coeff(a, b, k) by {
                lemma_conv_sum_full(a, b, k);
            }
            assert(coeff@ =~= mul_coeffs(a, b));
        }
        Polynomial::new(coeff)
    }
}

/// Adding polynomials is commutative: the coefficient sequences of `p + q`
/// and `q + p` are equal.
pub proof fn lemma_poly_add_comm<T: Num>(a: Seq<T>, b: Seq<T>)
    ensures
        add_coeffs(a, b) == add_coeffs(b, a),
{
    assert forall|i: int| 0 <= i < add_coeffs(a, b).len() implies #[trigger] add_coeffs(a, b)[i]
        == add_coeffs(b, a)[i] by {
        if i < a.len() && i < b.len() {
            T::lemma_add_comm(a[i], b[i]);
        }
    }
    assert(add_coeffs(a, b) =~= add_coeffs(b, a));
}

/// Multiplying polynomials is commutative: the coefficient sequences of
/// `p * q` and `q * p` are equal.
pub proof fn lemma_poly_mul_comm<T: Num>(a: Seq<T>, b: Seq<T>)
    ensures
        mul_coeffs(a, b) == mul_coeffs(b, a),
{
    if a.len() == 0 || b.len() == 0 {
        assert(mul_coeffs(a, b) =~= mul_coeffs(b, a));
    } else {
        assert forall|k: int| 0 <= k < mul_coeffs(a, b).len() implies #[trigger] mul_coeffs(
            a,
            b,
        )[k] == mul_coeffs(b, a)[k] by {
            lemma_mul_coeff_comm(a, b, k);
        }
        assert(mul_coeffs(a, b) =~= mul_coeffs(b, a));
    }
}

/// Reducing is idempotent: a second `reduce` leaves the canonical form
/// unchanged.
pub proof fn lemma_reduce_idempotent<T: Num>(s: Seq<T>)
    ensures
        reduced(reduced(s)) == reduced(s),
{
    lemma_last_nonzero(s);
    let j = last_nonzero(s);
    let r = reduced(s);
    if j == -1 {
        assert(r =~= Seq::<T>::empty());
        assert(reduced(r) =~= r);
    } else {
        assert(r.len() == j + 1);
        assert(r.last() == s[j]);
        assert(last_nonzero(r) == j);
        assert(reduced(r) =~= r);
    }
}

/// Whenever both are finite, the degree never exceeds the degree bound.
pub proof fn lemma_degree_le_degree_bound<T: Num>(s: Seq<T>)
    requires
        degree_spec(s) != usize::MAX as int,
        degree_bound_spec(s) != usize::MAX as int,
    ensures
        degree_spec(s) <= degree_bound_spec(s),
{
    lemma_last_nonzero(s);
}

/// The empty polynomial evaluates to zero at every point.
pub proof fn lemma_eval_empty<T: Num>(x: T)
    ensures
        eval_spec(Seq::<T>::empty(), x) == T::zero_spec(),
{
}

/// Setting a degree bound not above the current one changes nothing;
/// setting a larger bound over a finite one pads with zeros: the old
/// coefficients keep their positions and the new degree bound is exactly
/// `n`.
pub proof fn lemma_with_degree_bound<T: Num>(s: Seq<T>, n: int)
    requires
        0 <= n <= usize::MAX,
    ensures
        n <= degree_bound_spec(s) ==> with_degree_bound(s, n) == s,
        degree_bound_spec(s) < n ==> with_degree_bound(s, n).len() == n + 1,
        degree_bound_spec(s) < n ==> degree_bound_spec(with_degree_bound(s, n)) == n,
        degree_bound_spec(s) < n ==> forall|i: int|
            0 <= i < s.len() ==> with_degree_bound(s, n)[i] == s[i],
{
    if degree_bound_spec(s) < n {
        let t = with_degree_bound(s, n);
        assert(t.len() == n + 1);
        lemma_last_nonzero(s);
        let j = last_nonzero(s);
        assert(j >= 0);
        assert(t[j] == s[j]);
        assert(!all_zero(t)) by {
            assert(t[j] != T::zero_spec());
        }
        assert(degree_bound_spec(t) == n);
    }
}

} // verus!
