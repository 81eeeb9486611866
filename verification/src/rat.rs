//! Exact rational numbers.
//!
//! Every real quantity of the experiment harness — coefficients, standard
//! deviations, samples — is an exact fraction.  Results are not reduced to
//! lowest terms: each operation returns the literal numerator and denominator
//! of the textbook rule, so contracts can state results structurally.
//! Operations report a failure instead of wrapping when an exact result does
//! not fit the machine representation.

use vstd::prelude::*;

verus! {

/// The specification-level fraction: unbounded numerator and denominator.
pub struct Frac {
    pub num: int,
    pub den: int,
}

impl Frac {
    /// Well-formed fractions keep the denominator positive, so the sign of
    /// the value is the sign of the numerator.
    pub open spec fn wf(self) -> bool {
        self.den > 0
    }

    /// The exact product.
    pub open spec fn times(self, other: Frac) -> Frac {
        Frac { num: self.num * other.num, den: self.den * other.den }
    }

    /// The exact sum, on the product denominator.
    pub open spec fn plus(self, other: Frac) -> Frac {
        Frac {
            num: self.num * other.den + other.num * self.den,
            den: self.den * other.den,
        }
    }

    /// The exact quotient; meaningful when `other` is positive, which keeps
    /// the resulting denominator positive.
    pub open spec fn over(self, other: Frac) -> Frac {
        Frac { num: self.num * other.den, den: self.den * other.num }
    }

    /// Value order: `a/b <= c/d`, by cross-multiplication with positive
    /// denominators.
    pub open spec fn le(self, other: Frac) -> bool {
        self.num * other.den <= other.num * self.den
    }

    /// The value is strictly positive.
    pub open spec fn pos(self) -> bool {
        self.num > 0
    }
}

/// `x` fits the machine numerator/denominator type.
pub open spec fn fits(x: int) -> bool {
    i128::MIN <= x <= i128::MAX
}

/// The exact product of `a` and `b` is representable.
pub open spec fn times_fits(a: Frac, b: Frac) -> bool {
    fits(a.num * b.num) && fits(a.den * b.den)
}

/// The exact sum of `a` and `b` is representable, including the two
/// cross-products it is built from.
pub open spec fn plus_fits(a: Frac, b: Frac) -> bool {
    &&& fits(a.num * b.den)
    &&& fits(b.num * a.den)
    &&& fits(a.num * b.den + b.num * a.den)
    &&& fits(a.den * b.den)
}

/// The exact quotient of `a` by `b` is representable.
pub open spec fn over_fits(a: Frac, b: Frac) -> bool {
    fits(a.num * b.den) && fits(a.den * b.num)
}

/// An exact rational number held in machine integers.
#[derive(Clone, Copy, Debug, PartialEq, Eq, Structural)]
pub struct Rat {
    pub num: i128,
    pub den: i128,
}

impl View for Rat {
    type V = Frac;

    open spec fn view(&self) -> Frac {
        Frac { num: self.num as int, den: self.den as int }
    }
}

/// Every element of the sequence is well-formed.
pub open spec fn all_wf(s: Seq<Rat>) -> bool {
    forall|i: int| 0 <= i < s.len() ==> (#[trigger] s[i]).wf()
}

impl Rat {
    /// The denominator is positive.
    pub open spec fn wf(self) -> bool {
        self@.wf()
    }

    /// `num / den`, accepted only with a positive denominator.
    pub fn new(num: i128, den: i128) -> (r: Option<Rat>)
        ensures
            den > 0 ==> r == Some(Rat { num, den }),
            den <= 0 ==> r is None,
            r matches Some(q) ==> q.wf() && q@ == (Frac { num: num as int, den: den as int }),
    {
        if den > 0 {
            Some(Rat { num, den })
        } else {
            None
        }
    }

    /// The integer `num`, as the fraction `num / 1`.
    pub fn from_int(num: i128) -> (r: Rat)
        ensures
            r.wf(),
            r@ == (Frac { num: num as int, den: 1 }),
    {
        Rat { num, den: 1 }
    }

    /// Whether the value is strictly positive.
    pub fn is_positive(&self) -> (r: bool)
        requires
            self.wf(),
        ensures
            r == self@.pos(),
    {
        self.num > 0
    }

    /// The exact product, or `None` exactly when it is unrepresentable.
    pub fn times(&self, other: &Rat) -> (r: Option<Rat>)
        requires
            self.wf(),
            other.wf(),
        ensures
            r is Some <==> times_fits(self@, other@),
            r matches Some(q) ==> q.wf() && q@ == self@.times(other@),
    {
        let num = match self.num.checked_mul(other.num) {
            Some(n) => n,
            None => {
                return None;
            },
        };
        let den = match self.den.checked_mul(other.den) {
            Some(d) => d,
            None => {
                return None;
            },
        };
        proof {
            assert(den > 0) by (nonlinear_arith)
                requires
                    den == self.den * other.den,
                    self.den > 0,
                    other.den > 0,
            ;
        }
        Some(Rat { num, den })
    }

    /// The exact sum, or `None` exactly when it, or a cross-product it is
    /// built from, is unrepresentable.
    pub fn plus(&self, other: &Rat) -> (r: Option<Rat>)
        requires
            self.wf(),
            other.wf(),
        ensures
            r is Some <==> plus_fits(self@, other@),
            r matches Some(q) ==> q.wf() && q@ == self@.plus(other@),
    {
        let p1 = match self.num.checked_mul(other.den) {
            Some(p) => p,
            None => {
                return None;
            },
        };
        let p2 = match other.num.checked_mul(self.den) {
            Some(p) => p,
            None => {
                return None;
            },
        };
        let num = match p1.checked_add(p2) {
            Some(n) => n,
            None => {
                return None;
            },
        };
        let den = match self.den.checked_mul(other.den) {
            Some(d) => d,
            None => {
                return None;
            },
        };
        proof {
            assert(den > 0) by (nonlinear_arith)
                requires
                    den == self.den * other.den,
                    self.den > 0,
                    other.den > 0,
            ;
        }
        Some(Rat { num, den })
    }

    /// The exact quotient by a positive divisor, or `None` exactly when it is
    /// unrepresentable.
    pub fn over(&self, other: &Rat) -> (r: Option<Rat>)
        requires
            self.wf(),
            other.wf(),
            other@.pos(),
        ensures
            r is Some <==> over_fits(self@, other@),
            r matches Some(q) ==> q.wf() && q@ == self@.over(other@),
    {
        let num = match self.num.checked_mul(other.den) {
            Some(n) => n,
            None => {
                return None;
            },
        };
        let den = match self.den.checked_mul(other.num) {
            Some(d) => d,
            None => {
                return None;
            },
        };
        proof {
            assert(den > 0) by (nonlinear_arith)
                requires
                    den == self.den * other.num,
                    self.den > 0,
                    other.num > 0,
            ;
        }
        Some(Rat { num, den })
    }
}

} // verus!
