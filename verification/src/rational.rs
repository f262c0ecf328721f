//! Exact fractions for timestamps, durations and time bases.

use vstd::arithmetic::div_mod::{
    lemma_add_mod_noop, lemma_mod_self_0, lemma_small_mod, lemma_sub_mod_noop,
};
use vstd::prelude::*;

verus! {

/// Whether no integer greater than one divides both `a` and `b`.
pub open spec fn coprime(a: int, b: int) -> bool {
    forall|k: int| k > 1 ==> !(#[trigger] (a % k) == 0 && b % k == 0)
}

/// Whether `(numer, denom)` is the lowest-terms form, with a positive
/// denominator, of the fraction `n / d`.
pub open spec fn is_lowest_terms_of(numer: int, denom: int, n: int, d: int) -> bool {
    &&& denom > 0
    &&& numer * d == n * denom
    &&& coprime(numer, denom)
}

/// Whether a fraction of these two integers can be brought to lowest terms,
/// with a positive denominator, within 64 bits.
///
/// The denominator must not be zero. Only `i64::MIN` can fail to fit, as it
/// has no negative in 64 bits: a denominator of `i64::MIN` needs an even
/// numerator, or it would stay what it is; a numerator of `i64::MIN` over a
/// negative denominator needs an even denominator.
pub open spec fn reducible(numer: i64, denom: i64) -> bool {
    &&& denom != 0
    &&& denom == i64::MIN ==> numer % 2 == 0
    &&& numer == i64::MIN && denom < 0 ==> denom % 2 == 0
}

/// Reduces `numer / denom` with `num_rational::Ratio::new` and reads the two
/// parts back. `Ratio::new` puts the fraction into lowest terms with a
/// positive denominator. It panics on a zero denominator, and where it must
/// change the sign of a part that is still `i64::MIN` after the division by
/// the common divisor, the subtraction from zero overflows: those inputs are
/// left out.
#[verifier::external_body]
fn lowest_terms(numer: i64, denom: i64) -> (r: (i64, i64))
    requires
        reducible(numer, denom),
    ensures
        is_lowest_terms_of(r.0 as int, r.1 as int, numer as int, denom as int),
{
    let q = num_rational::Ratio::new(numer, denom);
    (*q.numer(), *q.denom())
}

/// Whether `x` is odd.
fn is_odd(x: i64) -> (odd: bool)
    ensures
        odd == (x % 2 != 0),
{
    assert((x & 1 == 1) == (x % 2 != 0)) by (bit_vector);
    x & 1 == 1
}

/// An exact fraction of two 64-bit integers, always in lowest terms and with
/// a positive denominator.
#[derive(Clone, Copy, Debug, PartialEq, Eq, Structural)]
pub struct Rational64 {
    numer: i64,
    denom: i64,
}

impl View for Rational64 {
    type V = (int, int);

    /// The numerator and the denominator.
    closed spec fn view(&self) -> (int, int) {
        (self.numer as int, self.denom as int)
    }
}

impl Rational64 {
    #[verifier::type_invariant]
    closed spec fn inv(self) -> bool {
        self.wf()
    }

    /// The denominator is positive and the fraction is in lowest terms.
    pub open spec fn wf(self) -> bool {
        &&& self@.1 > 0
        &&& coprime(self@.0, self@.1)
        &&& i64::MIN <= self@.0 <= i64::MAX
        &&& self@.1 <= i64::MAX
    }

    /// Whether `self` is a smaller number than `other`.
    pub open spec fn spec_lt(self, other: Rational64) -> bool {
        self@.0 * other@.1 < other@.0 * self@.1
    }

    /// Makes the fraction `numer / denom`, reduced to lowest terms.
    ///
    /// There is no such fraction where `denom` is zero, nor where its lowest
    /// terms do not fit 64 bits, as [`reducible`] says.
    pub fn new(numer: i64, denom: i64) -> (r: Option<Rational64>)
        ensures
            r is Some <==> reducible(numer, denom),
            r matches Some(q) ==> q.wf() && is_lowest_terms_of(
                q@.0,
                q@.1,
                numer as int,
                denom as int,
            ),
    {
        if denom == 0 || (denom == i64::MIN && is_odd(numer)) || (numer == i64::MIN && denom < 0
            && is_odd(denom)) {
            None
        } else {
            let (n, d) = lowest_terms(numer, denom);
            Some(Rational64 { numer: n, denom: d })
        }
    }

    /// The numerator.
    pub fn numer(&self) -> (n: i64)
        ensures
            n == self@.0,
    {
        self.numer
    }

    /// The denominator, which is positive.
    pub fn denom(&self) -> (d: i64)
        ensures
            d == self@.1,
            d > 0,
    {
        proof {
            use_type_invariant(self);
        }
        self.denom
    }

    /// Compares two fractions exactly, by cross-multiplication in 128 bits.
    pub fn lt(&self, other: &Rational64) -> (r: bool)
        ensures
            r == self.spec_lt(*other),
    {
        proof {
            use_type_invariant(self);
            use_type_invariant(other);
        }
        let a: i128 = self.numer as i128;
        let b: i128 = other.denom as i128;
        let c: i128 = other.numer as i128;
        let d: i128 = self.denom as i128;
        assert(-0x4000_0000_0000_0000_0000_0000_0000_0000 <= a * b
            <= 0x4000_0000_0000_0000_0000_0000_0000_0000) by (nonlinear_arith)
            requires
                -0x8000_0000_0000_0000 <= a <= 0x7fff_ffff_ffff_ffff,
                0 < b <= 0x7fff_ffff_ffff_ffff,
        ;
        assert(-0x4000_0000_0000_0000_0000_0000_0000_0000 <= c * d
            <= 0x4000_0000_0000_0000_0000_0000_0000_0000) by (nonlinear_arith)
            requires
                -0x8000_0000_0000_0000 <= c <= 0x7fff_ffff_ffff_ffff,
                0 < d <= 0x7fff_ffff_ffff_ffff,
        ;
        a * b < c * d
    }
}

/// Where `a` and `b` have no common divisor and `b` divides `a * x`, `b`
/// divides `x`. The quotient of `a * x` by `b` comes in as `y`, that of `x`
/// by `b` goes out.
proof fn lemma_coprime_divides(a: int, b: int, x: int, y: int) -> (z: int)
    requires
        a >= 0,
        b > 0,
        coprime(a, b),
        a * x == b * y,
    ensures
        x == b * z,
    decreases a + b,
{
    if a == 0 || a == b {
        if b > 1 {
            lemma_mod_self_0(b);
            lemma_small_mod(0, b as nat);
            assert(a % b == 0 && b % b == 0);
            assert(false);
        }
        assert(b == 1);
        x
    } else if a > b {
        assert(coprime(a - b, b)) by {
            assert forall|k: int| k > 1 implies !(#[trigger] ((a - b) % k) == 0 && b % k == 0) by {
                if (a - b) % k == 0 && b % k == 0 {
                    lemma_add_mod_noop(a - b, b, k);
                    lemma_small_mod(0, k as nat);
                    assert(((a - b) + b) % k == 0);
                    assert((a - b) + b == a);
                }
            }
        }
        assert((a - b) * x == b * (y - x)) by (nonlinear_arith)
            requires
                a * x == b * y,
        ;
        lemma_coprime_divides(a - b, b, x, y - x)
    } else {
        assert(coprime(a, b - a)) by {
            assert forall|k: int| k > 1 implies !(#[trigger] (a % k) == 0 && (b - a) % k == 0) by {
                if a % k == 0 && (b - a) % k == 0 {
                    lemma_add_mod_noop(a, b - a, k);
                    lemma_small_mod(0, k as nat);
                    assert((a + (b - a)) % k == 0);
                    assert(a + (b - a) == b);
                }
            }
        }
        assert(a * (x - y) == (b - a) * y) by (nonlinear_arith)
            requires
                a * x == b * y,
        ;
        let z = lemma_coprime_divides(a, b - a, x - y, y);
        assert(y == a * z) by (nonlinear_arith)
            requires
                a * (x - y) == (b - a) * y,
                x - y == (b - a) * z,
                b - a > 0,
        ;
        assert(x == b * z) by (nonlinear_arith)
            requires
                y == a * z,
                x - y == (b - a) * z,
        ;
        z
    }
}

/// Two fractions in lowest terms with positive denominators that are the
/// same number have the same numerator and the same denominator, where the
/// numerators are not negative.
proof fn lemma_same_number_same_parts(a: int, b: int, c: int, d: int)
    requires
        a >= 0,
        c >= 0,
        b > 0,
        d > 0,
        coprime(a, b),
        coprime(c, d),
        a * d == c * b,
    ensures
        a == c,
        b == d,
{
    assert(a * d == b * c) by (nonlinear_arith)
        requires
            a * d == c * b,
    ;
    let z = lemma_coprime_divides(a, b, d, c);
    assert(c * b == d * a) by (nonlinear_arith)
        requires
            a * d == c * b,
    ;
    let w = lemma_coprime_divides(c, d, b, a);
    assert(z == 1 && w == 1) by (nonlinear_arith)
        requires
            d == b * z,
            b == d * w,
            b > 0,
            d > 0,
    ;
    assert(a == c) by (nonlinear_arith)
        requires
            a * d == c * b,
            b == d,
            d > 0,
    ;
}

/// A fraction and its negative are in lowest terms together.
proof fn lemma_coprime_negated(a: int, b: int)
    requires
        coprime(a, b),
    ensures
        coprime(-a, b),
{
    assert forall|k: int| k > 1 implies !(#[trigger] ((-a) % k) == 0 && b % k == 0) by {
        if (-a) % k == 0 {
            lemma_sub_mod_noop(0, -a, k);
            lemma_small_mod(0, k as nat);
            assert((0 - (-a)) % k == 0);
            assert(0 - (-a) == a);
        }
    }
}

/// Equality of fractions is equality of numbers: two fractions stand for the
/// same number exactly when their numerators and their denominators are the
/// same.
pub proof fn lemma_equality_is_exact(p: Rational64, q: Rational64)
    requires
        p.wf(),
        q.wf(),
    ensures
        p@.0 * q@.1 == q@.0 * p@.1 <==> p == q,
{
    let (a, b) = p@;
    let (c, d) = q@;
    if a * d == c * b {
        assert(a >= 0 <==> c >= 0) by (nonlinear_arith)
            requires
                a * d == c * b,
                b > 0,
                d > 0,
        ;
        if a >= 0 {
            lemma_same_number_same_parts(a, b, c, d);
        } else {
            lemma_coprime_negated(a, b);
            lemma_coprime_negated(c, d);
            assert((-a) * d == (-c) * b) by (nonlinear_arith)
                requires
                    a * d == c * b,
            ;
            if c == 0 {
                assert(a * d == 0);
                assert(false) by (nonlinear_arith)
                    requires
                        a * d == 0,
                        a < 0,
                        d > 0,
                ;
            }
            lemma_same_number_same_parts(-a, b, -c, d);
        }
    }
}

} // verus!
