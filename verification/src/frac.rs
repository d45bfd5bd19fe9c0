//! Exact fractions for positions and collider extents.
//!
//! Window-relative layout puts bodies at coordinates such as `-width / 3` or
//! `height * 3 / 8`, and a resize multiplies a coordinate by the exact ratio
//! of the new window dimension to the old one. Keeping coordinates as
//! fractions of machine integers makes every one of those operations exact,
//! so the layout contracts can be stated without tolerance.

use vstd::prelude::*;

verus! {

/// A signed fraction `num / den` with a positive denominator.
///
/// Two fractions are compared by value with [`Frac::eqv`] (cross
/// multiplication); the representation is not kept canonical, so structural
/// equality is finer than value equality.
#[derive(Clone, Copy, PartialEq, Eq, Structural, Debug)]
pub struct Frac {
    pub num: i64,
    pub den: i64,
}

impl Frac {
    /// Well-formed: the denominator is positive.
    pub open spec fn wf(self) -> bool {
        self.den > 0
    }

    /// Both fractions denote the same rational number.
    pub open spec fn eqv(self, other: Frac) -> bool {
        self.num * other.den == other.num * self.den
    }

    /// The fraction denotes exactly the integer `n`.
    pub open spec fn is_int(self, n: int) -> bool {
        self.num == n * self.den
    }

    pub fn new(num: i64, den: i64) -> (r: Frac)
        requires
            den > 0,
        ensures
            r == (Frac { num, den }),
            r.wf(),
    {
        Frac { num, den }
    }

    pub fn from_int(n: i64) -> (r: Frac)
        ensures
            r == (Frac { num: n, den: 1 }),
            r.wf(),
            r.is_int(n as int),
    {
        Frac { num: n, den: 1 }
    }

    /// Whether both fractions denote the same rational number.
    pub fn same_value(&self, other: &Frac) -> (r: bool)
        ensures
            r == self.eqv(*other),
    {
        proof {
            assert(i128::MIN <= self.num as int * other.den as int <= i128::MAX)
                by (nonlinear_arith)
                requires
                    i64::MIN <= self.num <= i64::MAX,
                    i64::MIN <= other.den <= i64::MAX,
            ;
            assert(i128::MIN <= other.num as int * self.den as int <= i128::MAX)
                by (nonlinear_arith)
                requires
                    i64::MIN <= other.num <= i64::MAX,
                    i64::MIN <= self.den <= i64::MAX,
            ;
        }
        let a: i128 = (self.num as i128) * (other.den as i128);
        let b: i128 = (other.num as i128) * (self.den as i128);
        a == b
    }

    /// The product `self * (num_f / den_f)` stays within machine bounds.
    pub open spec fn can_scale(self, num_f: u32, den_f: u32) -> bool {
        &&& den_f > 0
        &&& i64::MIN <= self.num * num_f <= i64::MAX
        &&& self.den * den_f <= i64::MAX
    }

    /// Whether the product `self * (num_f / den_f)` stays within machine
    /// bounds, decided at run time.
    pub fn can_scale_exec(&self, num_f: u32, den_f: u32) -> (r: bool)
        requires
            self.wf(),
        ensures
            r == self.can_scale(num_f, den_f),
    {
        if den_f == 0 {
            return false;
        }
        proof {
            assert(i128::MIN <= self.num as int * num_f as int <= i128::MAX) by (nonlinear_arith)
                requires
                    i64::MIN <= self.num <= i64::MAX,
                    0 <= num_f <= u32::MAX,
            ;
            assert(i128::MIN <= self.den as int * den_f as int <= i128::MAX) by (nonlinear_arith)
                requires
                    i64::MIN <= self.den <= i64::MAX,
                    0 <= den_f <= u32::MAX,
            ;
        }
        let n: i128 = (self.num as i128) * (num_f as i128);
        let d: i128 = (self.den as i128) * (den_f as i128);
        n >= i64::MIN as i128 && n <= i64::MAX as i128 && d <= i64::MAX as i128
    }

    /// The result of multiplying by the exact ratio `num_f / den_f`.
    pub open spec fn spec_rescale(self, num_f: u32, den_f: u32) -> Frac {
        Frac { num: (self.num * num_f) as i64, den: (self.den * den_f) as i64 }
    }

    /// Multiply by the exact ratio `num_f / den_f`, without reducing.
    pub fn rescale(&self, num_f: u32, den_f: u32) -> (r: Frac)
        requires
            self.wf(),
            self.can_scale(num_f, den_f),
        ensures
            r == self.spec_rescale(num_f, den_f),
            r.num == self.num * num_f,
            r.den == self.den * den_f,
            r.wf(),
    {
        proof {
            assert(self.den * den_f > 0) by (nonlinear_arith)
                requires
                    self.den > 0,
                    den_f > 0,
            ;
        }
        Frac { num: self.num * (num_f as i64), den: self.den * (den_f as i64) }
    }

    /// Law: rescaling is proportional, not an offset. The result keeps the
    /// coordinate's ratio to the window dimension: `r / num_f == self / den_f`
    /// as rational numbers, written cross-multiplied.
    pub proof fn lemma_rescale_proportional(self, num_f: u32, den_f: u32)
        requires
            self.wf(),
            self.can_scale(num_f, den_f),
        ensures
            self.spec_rescale(num_f, den_f).num * (self.den * den_f) == self.num * (
            self.spec_rescale(num_f, den_f).den * num_f),
    {
        assert((self.num * num_f) * (self.den * den_f) == self.num * ((self.den * den_f) * num_f))
            by (nonlinear_arith);
    }

    /// Scaling by a ratio of equal, positive factors keeps the value.
    pub proof fn lemma_rescale_same(self, f: u32)
        requires
            self.wf(),
            self.can_scale(f, f),
        ensures
            self.spec_rescale(f, f).eqv(self),
            self.spec_rescale(f, f).wf(),
    {
        assert((self.num * f) * self.den == self.num * (self.den * f)) by (nonlinear_arith);
        assert(self.den * f > 0) by (nonlinear_arith)
            requires
                self.den > 0,
                f > 0,
        ;
    }
}

/// A two-dimensional point with exact fraction coordinates.
#[derive(Clone, Copy, PartialEq, Eq, Structural, Debug)]
pub struct Pos {
    pub x: Frac,
    pub y: Frac,
}

impl Pos {
    pub open spec fn wf(self) -> bool {
        self.x.wf() && self.y.wf()
    }

    /// Both points denote the same pair of rational coordinates.
    pub open spec fn eqv(self, other: Pos) -> bool {
        self.x.eqv(other.x) && self.y.eqv(other.y)
    }

    /// The field center.
    pub open spec fn spec_origin() -> Pos {
        Pos { x: Frac { num: 0, den: 1 }, y: Frac { num: 0, den: 1 } }
    }

    pub fn origin() -> (r: Pos)
        ensures
            r == Pos::spec_origin(),
            r.wf(),
    {
        Pos { x: Frac::from_int(0), y: Frac::from_int(0) }
    }

    pub fn same_value(&self, other: &Pos) -> (r: bool)
        ensures
            r == self.eqv(*other),
    {
        self.x.same_value(&other.x) && self.y.same_value(&other.y)
    }
}

} // verus!
