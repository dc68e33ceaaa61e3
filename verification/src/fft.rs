//! Fast Fourier Transform: the Cooley-Tukey divide-and-conquer evaluation
//! of a polynomial at all the n-th roots of unity, for n a power of two.
//!
//! The engine is generic over the numeric capability of the components; the
//! primitive root of unity is handed in by the caller (for floating-point
//! components it comes from the trigonometric functions, which live outside
//! this crate's arithmetic capability).  Each recursion level works with
//! the square of the root it was given, which is the primitive root for the
//! half-size subproblems.
use crate::complex::{c_add, c_mul, c_one, c_sub, Complex};
use crate::misc::{is_pow2, lemma_pow2_ordering, next_power_of_2};
use crate::num::{Num, One, Zero};
use crate::poly::{zero_seq, Polynomial};
use vstd::prelude::*;

verus! {

/// The entries at even indices, in order.
pub open spec fn evens<T>(s: Seq<T>) -> Seq<T> {
    Seq::new(((s.len() + 1) / 2) as nat, |i: int| s[2 * i])
}

/// The entries at odd indices, in order.
pub open spec fn odds<T>(s: Seq<T>) -> Seq<T> {
    Seq::new((s.len() / 2) as nat, |i: int| s[2 * i + 1])
}

/// The `k`-th power of a complex number, with the zeroth power being one.
pub open spec fn c_pow<T: Num>(b: Complex<T>, k: nat) -> Complex<T>
    decreases k,
{
    if k == 0 {
        c_one::<T>()
    } else {
        c_mul(b, c_pow(b, (k - 1) as nat))
    }
}

/// The Cooley-Tukey recursion: a single point is its own transform;
/// otherwise the even- and odd-indexed halves are transformed with the
/// squared root, and the halves are combined by the butterfly with the
/// running twiddle factor `root^j`: entry `j` of the result is
/// `even[j] + root^j * odd[j]` and entry `j + n/2` is
/// `even[j] - root^j * odd[j]`.
pub open spec fn fft_spec<T: Num>(v: Seq<Complex<T>>, root: Complex<T>) -> Seq<Complex<T>>
    decreases v.len(),
{
    if v.len() <= 1 {
        v
    } else {
        let ye = fft_spec(evens(v), c_mul(root, root));
        let yo = fft_spec(odds(v), c_mul(root, root));
        let half = v.len() as int / 2;
        Seq::new(
            v.len(),
            |j: int|
                if j < half {
                    c_add(ye[j], c_mul(c_pow(root, j as nat), yo[j]))
                } else {
                    c_sub(ye[j - half], c_mul(c_pow(root, (j - half) as nat), yo[j - half]))
                },
        )
    }
}

/// The transform of a sequence has the sequence's length.
pub proof fn lemma_fft_spec_len<T: Num>(v: Seq<Complex<T>>, root: Complex<T>)
    ensures
        fft_spec(v, root).len() == v.len(),
{
}

/// The smallest power of two greater than or equal to `n`, with
/// `pow2_ceil(0) == 1`.
pub open spec fn pow2_ceil(n: nat) -> nat
    decreases n,
{
    if n <= 1 {
        1
    } else {
        2 * pow2_ceil((n + 1) / 2)
    }
}

/// `pow2_ceil` really is the smallest power of two at least `n`: it is a
/// power of two, at least `n`, and below `2 * n`.
pub proof fn lemma_pow2_ceil_bounds(n: nat)
    requires
        n >= 1,
    ensures
        is_pow2(pow2_ceil(n)),
        pow2_ceil(n) >= n,
        pow2_ceil(n) < 2 * n,
    decreases n,
{
    if n > 1 {
        let m = (n + 1) / 2;
        lemma_pow2_ceil_bounds(m);
        let p = pow2_ceil(m);
        assert(is_pow2(2 * p)) by {
            assert((2 * p) % 2 == 0 && (2 * p) / 2 == p);
        }
        if n % 2 == 1 {
            // an odd `n` of at least 3 cannot itself be the halved power,
            // because every power of two at least 2 is even
            assert(m >= 2);
            assert(p >= 2);
            assert(p % 2 == 0);
            assert(p != n);
            assert(p < n);
        } else {
            assert(p < n);
        }
    }
}

/// Any power of two that is at least `n` and below `2 * n` equals
/// `pow2_ceil(n)`.
pub proof fn lemma_pow2_ceil_unique(r: nat, n: nat)
    requires
        n >= 1,
        is_pow2(r),
        r >= n,
        r < 2 * n,
    ensures
        r == pow2_ceil(n),
{
    lemma_pow2_ceil_bounds(n);
    let c = pow2_ceil(n);
    if r < c {
        lemma_pow2_ordering(r, c);
    } else if c < r {
        lemma_pow2_ordering(c, r);
    }
}

/// The coefficient sequence padded with zeros to the next power of two.
pub open spec fn padded<T: Num>(s: Seq<T>) -> Seq<T> {
    s + zero_seq(pow2_ceil(s.len()) as int - s.len())
}

/// The sequence lifted element-wise into complex numbers with zero
/// imaginary part.
pub open spec fn lifted<T: Num>(s: Seq<T>) -> Seq<Complex<T>> {
    Seq::new(s.len(), |i: int| Complex { re: s[i], im: T::zero_spec() })
}

/// Recursive Cooley-Tukey core.  The vector length must be a power of two:
/// the callers guarantee it by zero-padding first.
fn fft_recursive<T: Num>(v: Vec<Complex<T>>, root: Complex<T>) -> (r: Vec<Complex<T>>)
    requires
        is_pow2(v@.len()),
    ensures
        r@ == fft_spec(v@, root),
    decreases v@.len(),
{
    let ghost v0 = v@;
    let n = v.len();
    if n == 1 {
        return v;
    }
    proof {
        // a power of two above one is even, and its half is a power of two
        assert(n >= 2);
        assert(n % 2 == 0 && is_pow2((n / 2) as nat));
    }

    // Split into the even-indexed and odd-indexed halves, keeping the order
    let mut v_even: Vec<Complex<T>> = Vec::new();
    let mut v_odd: Vec<Complex<T>> = Vec::new();
    let mut idx: usize = 0;
    while idx < n
        invariant
            n == v0.len(),
            v@ == v0,
            idx <= n,
            v_even@.len() == (idx + 1) / 2,
            v_odd@.len() == idx / 2,
            forall|m: int| 0 <= m < v_even@.len() ==> v_even@[m] == v0[2 * m],
            forall|m: int| 0 <= m < v_odd@.len() ==> v_odd@[m] == v0[2 * m + 1],
        decreases n - idx,
    {
        if idx % 2 == 0 {
            v_even.push(v[idx]);
        } else {
            v_odd.push(v[idx]);
        }
        idx = idx + 1;
    }
    proof {
        assert(v_even@ =~= evens(v0));
        assert(v_odd@ =~= odds(v0));
    }

    // Divide and conquer: the squared root is primitive for the halves
    let root2 = root * root;
    let y_even = fft_recursive(v_even, root2);
    let y_odd = fft_recursive(v_odd, root2);
    let half = n / 2;
    proof {
        lemma_fft_spec_len(evens(v0), c_mul(root, root));
        lemma_fft_spec_len(odds(v0), c_mul(root, root));
    }

    // Butterfly combination with the running twiddle factor omega == root^j
    let mut omega = Complex::new(T::one(), T::zero());
    let mut out = v;
    let mut j: usize = 0;
    while j < half
        invariant
            n == v0.len(),
            n >= 2,
            n % 2 == 0,
            half == n / 2,
            out@.len() == n,
            j <= half,
            y_even@ == fft_spec(evens(v0), c_mul(root, root)),
            y_odd@ == fft_spec(odds(v0), c_mul(root, root)),
            y_even@.len() == half,
            y_odd@.len() == half,
            omega == c_pow(root, j as nat),
            forall|m: int| 0 <= m < j ==> out@[m] == fft_spec(v0, root)[m],
            forall|m: int| 0 <= m < j ==> #[trigger] out@[half + m] == fft_spec(v0, root)[half
                + m],
        decreases half - j,
    {
        let t = omega * y_odd[j];
        out[j] = y_even[j] + t;
        out[j + half] = y_even[j] - t;
        omega = root * omega;
        j = j + 1;
    }
    proof {
        lemma_fft_spec_len(v0, root);
        assert forall|i: int| 0 <= i < n implies out@[i] == fft_spec(v0, root)[i] by {
            if i >= half {
                let m = i - half;
                assert(out@[half + m] == fft_spec(v0, root)[half + m]);
            }
        }
        assert(out@ =~= fft_spec(v0, root));
    }
    out
}

/// Fast Fourier Transform.  The polynomial is zero-padded to the next
/// power of two `n2` (a polynomial with 5 coefficients `[0, 1, 3, 5, 0]`
/// is padded to 8 coefficients `[0, 1, 3, 5, 0, 0, 0, 0]`), its
/// coefficients are lifted into complex numbers, and the recursive engine
/// evaluates it at every `n2`-th root of unity.  `root` must be the
/// primitive `n2`-th root of unity for the component type; the result is
/// the transform of the padded, lifted coefficient sequence, whose entry
/// `j` is the evaluation at `root^j`.
pub fn fft_with_root<T: Num>(p: Polynomial<T>, root: Complex<T>) -> (r: Vec<Complex<T>>)
    requires
        p.coeff@.len() <= usize::MAX / 2 + 1,
    ensures
        r@ == fft_spec(lifted(padded(p.coeff@)), root),
{
    let ghost s0 = p.coeff@;
    let mut coeff = p.coeff;
    // Zero padding, if necessary
    let n2 = next_power_of_2(coeff.len());
    proof {
        if s0.len() == 0 {
            assert(pow2_ceil(0) == 1);
        } else {
            lemma_pow2_ceil_unique(n2 as nat, s0.len());
        }
        assert(n2 as nat == pow2_ceil(s0.len()));
    }
    while coeff.len() < n2
        invariant
            n2 as nat == pow2_ceil(s0.len()),
            s0.len() <= coeff@.len() <= n2,
            coeff@ == s0 + zero_seq(coeff@.len() - s0.len()),
        decreases n2 - coeff@.len(),
    {
        coeff.push(T::zero());
        proof {
            assert(coeff@ =~= s0 + zero_seq(coeff@.len() - s0.len()));
        }
    }
    proof {
        assert(coeff@ =~= padded(s0));
    }
    let cv = Complex::from_real_vec(coeff);
    proof {
        assert(cv@ =~= lifted(padded(s0)));
        if s0.len() > 0 {
            lemma_pow2_ceil_bounds(s0.len());
        }
    }
    fft_recursive(cv, root)
}

} // verus!
