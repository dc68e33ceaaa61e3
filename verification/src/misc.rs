//! Miscellaneous helpers: the smallest power of two at least as large as a
//! given number.
use vstd::prelude::*;

verus! {

/// Whether `n` is a power of two (`1`, `2`, `4`, ...).
pub open spec fn is_pow2(n: nat) -> bool
    decreases n,
{
    if n == 0 {
        false
    } else if n == 1 {
        true
    } else {
        n % 2 == 0 && is_pow2(n / 2)
    }
}

/// The single-bit test `x & (x - 1) == 0` recognises exactly the powers of
/// two among the non-zero words.
proof fn lemma_pow2_bit_trick(x: u64)
    requires
        x > 0,
    ensures
        (x & ((x - 1) as u64) == 0) <==> is_pow2(x as nat),
    decreases x,
{
    if x == 1 {
        assert(1u64 & 0u64 == 0) by (bit_vector);
    } else if x % 2 == 1 {
        assert(x % 2 == 1 && x > 1 ==> x & ((x - 1) as u64) != 0) by (bit_vector);
    } else {
        let y = x / 2;
        lemma_pow2_bit_trick(y);
        assert(x % 2 == 0 && x > 1 && y == x / 2 ==> ((x & ((x - 1) as u64) == 0) <==> (y & ((y - 1) as u64) == 0))) by (bit_vector);
        assert(x as nat / 2 == y as nat);
    }
}

/// Every value of the form `1 << k` is a power of two.
proof fn lemma_shift_is_pow2(k: u64)
    requires
        k < 64,
    ensures
        is_pow2((1u64 << k) as nat),
    decreases k,
{
    if k == 0 {
        assert(1u64 << 0u64 == 1) by (bit_vector);
    } else {
        let j = (k - 1) as u64;
        lemma_shift_is_pow2(j);
        assert(k < 64 && k > 0 && j == k - 1 ==> (1u64 << k) == 2 * (1u64 << j) && (1u64 << j)
            >= 1) by (bit_vector);
        assert((1u64 << k) as nat % 2 == 0);
        assert((1u64 << k) as nat / 2 == (1u64 << j) as nat);
    }
}

/// Of two distinct powers of two, the smaller is at most half the larger.
pub proof fn lemma_pow2_ordering(a: nat, b: nat)
    requires
        is_pow2(a),
        is_pow2(b),
        a < b,
    ensures
        2 * a <= b,
    decreases b,
{
    if b > 1 {
        if a < b / 2 {
            lemma_pow2_ordering(a, b / 2);
        } else if a > b / 2 {
            lemma_pow2_ordering(b / 2, a);
        }
    }
}

/// The minimality behind `next_power_of_2`: a power of two `r` with
/// `n <= r < 2 * n` is the smallest power of two at least `n`, so any other
/// power of two `m >= n` is at least `r`.
pub proof fn lemma_pow2_minimal(r: nat, m: nat, n: nat)
    requires
        is_pow2(r),
        is_pow2(m),
        n <= r,
        r < 2 * n,
        n <= m,
    ensures
        r <= m,
{
    if m < r {
        lemma_pow2_ordering(m, r);
    }
}

/// Computes the smallest power of 2 greater than or equal to `n`, taking
/// `next_power_of_2(0) == 1` by convention.  A single bit scan (count of
/// leading zeros) replaces any repeated doubling, so the cost is constant.
pub fn next_power_of_2(n: usize) -> (r: usize)
    requires
        n <= usize::MAX / 2 + 1,
    ensures
        is_pow2(r as nat),
        r >= n,
        n > 0 ==> r < 2 * (n as int),
        n == 0 ==> r == 1,
{
    if n == 0 {
        // Zero is padded up to the smallest power of two.
        1
    } else {
        let x: u64 = n as u64;
        if (x & (x - 1)) == 0 {
            proof {
                lemma_pow2_bit_trick(x);
            }
            n
        } else {
            let lz: u32 = x.leading_zeros();
            proof {
                vstd::std_specs::bits::axiom_u64_leading_zeros(x);
                lemma_pow2_bit_trick(x);
                let lv = vstd::std_specs::bits::u64_leading_zeros(x);
                assert(x & ((x - 1) as u64) != 0 ==> x >= 3) by (bit_vector);
                assert(x == 0x8000_0000_0000_0000u64 ==> x & ((x - 1) as u64) == 0) by (bit_vector);
                assert(x < 0x8000_0000_0000_0000);
                assert(lv < 64);
                if lv == 0 {
                    assert((x >> 63u64) & 1u64 != 0);
                    assert((x >> 63u64) & 1u64 != 0 ==> x >= 0x8000_0000_0000_0000u64)
                        by (bit_vector);
                    assert(false);
                }
                if lv == 63 {
                    assert(x >> 1u64 == 0);
                    assert(x >> 1u64 == 0 ==> x < 3) by (bit_vector);
                    assert(false);
                }
                let h = (63 - lv) as u64;
                let h1 = (64 - lv) as u64;
                assert((x >> h) & 1u64 != 0);
                assert(x >> h1 == 0);
                assert((x >> h) & 1u64 != 0 && x >> h1 == 0 && x & ((x - 1) as u64) != 0 && h < 63 && h1
                    == h + 1 ==> (1u64 << h) < x && x < (1u64 << h1) && (1u64 << h1) == 2 * (
                1u64 << h)) by (bit_vector);
                let lzv = lv as u64;
                let lm1 = (lv - 1) as u64;
                assert(1 <= lzv && lzv <= 62 && lm1 == lzv - 1 && h1 == 64 - lzv ==> (
                0x8000_0000_0000_0000u64 >> lm1) == (1u64 << h1)) by (bit_vector);
                lemma_shift_is_pow2(h1);
            }
            let r64: u64 = 0x8000_0000_0000_0000u64 >> (lz - 1);
            proof {
                assert(r64 < 2 * (n as int));
                assert(2 * (n as int) <= usize::MAX as int + 1);
            }
            r64 as usize
        }
    }
}

} // verus!
