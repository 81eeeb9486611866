//! Construction of the synthetic variables of the causal model.
//!
//! A latent confounder `v` and an idiosyncratic shock `e_x` give the observed
//! regressor `x = alpha_x * v + e_x`; a further shock `e_y` gives the outcome
//! `y = beta * x + alpha_y * v + e_y`.  The random draws for `v`, `e_x` and
//! `e_y` are supplied by the caller as plain rational vectors; everything
//! built from them here is exact and is pinned down element by element.

use vstd::prelude::*;

use crate::error::SimError;
use crate::rat::{all_wf, plus_fits, times_fits, Frac, Rat};

verus! {

/// The element `a * v + e` of a scaled sum of two columns.
pub open spec fn scaled_sum_row(a: Frac, v: Frac, e: Frac) -> Frac {
    a.times(v).plus(e)
}

/// Every step of `a * v + e` is representable.
pub open spec fn scaled_sum_row_fits(a: Frac, v: Frac, e: Frac) -> bool {
    times_fits(a, v) && plus_fits(a.times(v), e)
}

/// The element `b * x + a * v + e` of the outcome column.
pub open spec fn outcome_row(b: Frac, x: Frac, a: Frac, v: Frac, e: Frac) -> Frac {
    b.times(x).plus(a.times(v)).plus(e)
}

/// Every step of `b * x[i] + a * v[i] + e[i]` is representable.
pub open spec fn outcome_row_fits(b: Frac, x: Frac, a: Frac, v: Frac, e: Frac) -> bool {
    &&& times_fits(b, x)
    &&& times_fits(a, v)
    &&& plus_fits(b.times(x), a.times(v))
    &&& plus_fits(b.times(x).plus(a.times(v)), e)
}

/// Every step of `a * v[i] + e[i]` is representable, for every row.
pub open spec fn scaled_sum_fits(a: Rat, v: Seq<Rat>, e: Seq<Rat>) -> bool {
    forall|i: int| 0 <= i < v.len() ==> #[trigger] scaled_sum_row_fits(a@, v[i]@, e[i]@)
}

/// Every step of `b * x[i] + a * v[i] + e[i]` is representable, for every row.
pub open spec fn outcome_fits(b: Rat, a: Rat, x: Seq<Rat>, v: Seq<Rat>, e: Seq<Rat>) -> bool {
    forall|i: int| 0 <= i < x.len() ==> #[trigger] outcome_row_fits(b@, x[i]@, a@, v[i]@, e[i]@)
}

/// The column `a * v + e`, element by element, or the overflow error exactly
/// when some row of the exact result is unrepresentable.
pub(crate) fn scaled_sum(a: &Rat, v: &Vec<Rat>, e: &Vec<Rat>) -> (r: Result<Vec<Rat>, SimError>)
    requires
        a.wf(),
        all_wf(v@),
        all_wf(e@),
        v@.len() == e@.len(),
    ensures
        r is Ok <==> scaled_sum_fits(*a, v@, e@),
        r matches Ok(out) ==> {
            &&& out@.len() == v@.len()
            &&& all_wf(out@)
            &&& forall|i: int|
                0 <= i < v@.len() ==> (#[trigger] out@[i])@ == scaled_sum_row(a@, v@[i]@, e@[i]@)
        },
        r is Err ==> r == Err::<Vec<Rat>, SimError>(SimError::NumericOverflow),
{
    let n = v.len();
    let mut out: Vec<Rat> = Vec::new();
    let mut i: usize = 0;
    while i < n
        invariant
            i <= n,
            n == v@.len(),
            e@.len() == n,
            a.wf(),
            all_wf(v@),
            all_wf(e@),
            out@.len() == i as int,
            forall|j: int| 0 <= j < i ==> #[trigger] scaled_sum_row_fits(a@, v@[j]@, e@[j]@),
            forall|j: int|
                0 <= j < i ==> (#[trigger] out@[j])@ == scaled_sum_row(a@, v@[j]@, e@[j]@)
                    && out@[j].wf(),
        decreases n - i,
    {
        let vi = v[i];
        let ei = e[i];
        let prod = match a.times(&vi) {
            Some(p) => p,
            None => {
                proof {
                    assert(!scaled_sum_row_fits(a@, v@[i as int]@, e@[i as int]@));
                }
                return Err(SimError::NumericOverflow);
            },
        };
        let row = match prod.plus(&ei) {
            Some(s) => s,
            None => {
                proof {
                    assert(!scaled_sum_row_fits(a@, v@[i as int]@, e@[i as int]@));
                }
                return Err(SimError::NumericOverflow);
            },
        };
        proof {
            assert(scaled_sum_row_fits(a@, v@[i as int]@, e@[i as int]@));
        }
        out.push(row);
        i += 1;
    }
    Ok(out)
}

/// The independent side of the model: the confounder `v`, the shock `e_x`,
/// the regressor `x = alpha_x * v + e_x`, and the parameters they were built
/// from.  Built once per experiment and immutable afterwards.
#[derive(Debug)]
pub struct IndVars {
    pub v: Vec<Rat>,
    pub e_x: Vec<Rat>,
    pub x: Vec<Rat>,
    pub alpha_x: Rat,
    pub sigma_a: Rat,
    pub sigma_ex: Rat,
}

impl IndVars {
    /// Columns share one length, every entry is well-formed, the standard
    /// deviations are positive, and `x` is exactly `alpha_x * v + e_x`.
    pub open spec fn wf(self) -> bool {
        &&& self.alpha_x.wf()
        &&& self.sigma_a.wf()
        &&& self.sigma_ex.wf()
        &&& self.sigma_a@.pos()
        &&& self.sigma_ex@.pos()
        &&& all_wf(self.v@)
        &&& all_wf(self.e_x@)
        &&& all_wf(self.x@)
        &&& self.e_x@.len() == self.v@.len()
        &&& self.x@.len() == self.v@.len()
        &&& forall|i: int|
            0 <= i < self.v@.len() ==> (#[trigger] self.x@[i])@ == scaled_sum_row(
                self.alpha_x@,
                self.v@[i]@,
                self.e_x@[i]@,
            )
    }
}

/// Builds the independent variables from the supplied draws.
///
/// `v` and `e_x` are the sampled confounder and shock columns; they must have
/// one length.  Fails with the named validation error when a standard
/// deviation is not positive, and in that case produces no vectors.
pub fn ind_var_generate(
    alpha_x: Rat,
    sigma_a: Rat,
    sigma_ex: Rat,
    v: Vec<Rat>,
    e_x: Vec<Rat>,
) -> (r: Result<IndVars, SimError>)
    requires
        alpha_x.wf(),
        sigma_a.wf(),
        sigma_ex.wf(),
        all_wf(v@),
        all_wf(e_x@),
    ensures
        r is Ok <==> sigma_a@.pos() && sigma_ex@.pos() && v@.len() == e_x@.len()
            && scaled_sum_fits(alpha_x, v@, e_x@),
        r matches Ok(iv) ==> {
            &&& iv.wf()
            &&& iv.v@ == v@
            &&& iv.e_x@ == e_x@
            &&& iv.alpha_x == alpha_x
            &&& iv.sigma_a == sigma_a
            &&& iv.sigma_ex == sigma_ex
            &&& iv.x@.len() == v@.len()
        },
        !sigma_a@.pos() ==> r == Err::<IndVars, SimError>(SimError::SigmaANotPositive),
        sigma_a@.pos() && !sigma_ex@.pos() ==> r == Err::<IndVars, SimError>(
            SimError::SigmaExNotPositive,
        ),
        sigma_a@.pos() && sigma_ex@.pos() && v@.len() != e_x@.len() ==> r == Err::<
            IndVars,
            SimError,
        >(SimError::DimensionMismatch),
        sigma_a@.pos() && sigma_ex@.pos() && v@.len() == e_x@.len() && !scaled_sum_fits(
            alpha_x,
            v@,
            e_x@,
        ) ==> r == Err::<IndVars, SimError>(SimError::NumericOverflow),
{
    if !sigma_a.is_positive() {
        return Err(SimError::SigmaANotPositive);
    }
    if !sigma_ex.is_positive() {
        return Err(SimError::SigmaExNotPositive);
    }
    if v.len() != e_x.len() {
        return Err(SimError::DimensionMismatch);
    }
    let x = match scaled_sum(&alpha_x, &v, &e_x) {
        Ok(x) => x,
        Err(e) => {
            return Err(e);
        },
    };
    Ok(IndVars { v, e_x, x, alpha_x, sigma_a, sigma_ex })
}

/// The dependent side of the model: the outcome `y = beta * x + alpha_y * v
/// + e_y`, its shock `e_y`, the parameters, and the independent variables the
/// outcome was built from, embedded by ownership transfer.
#[derive(Debug)]
pub struct DepVars {
    pub y: Vec<Rat>,
    pub e_y: Vec<Rat>,
    pub alpha_y: Rat,
    pub beta: Rat,
    pub sigma_ey: Rat,
    pub ind_vars: IndVars,
}

impl DepVars {
    /// The embedded independent variables are well-formed, columns share one
    /// length, `sigma_ey` is positive, and `y` is exactly
    /// `beta * x + alpha_y * v + e_y`.
    pub open spec fn wf(self) -> bool {
        &&& self.beta.wf()
        &&& self.alpha_y.wf()
        &&& self.sigma_ey.wf()
        &&& self.sigma_ey@.pos()
        &&& self.ind_vars.wf()
        &&& all_wf(self.y@)
        &&& all_wf(self.e_y@)
        &&& self.e_y@.len() == self.ind_vars.v@.len()
        &&& self.y@.len() == self.ind_vars.v@.len()
        &&& forall|i: int|
            0 <= i < self.y@.len() ==> (#[trigger] self.y@[i])@ == outcome_row(
                self.beta@,
                self.ind_vars.x@[i]@,
                self.alpha_y@,
                self.ind_vars.v@[i]@,
                self.e_y@[i]@,
            )
    }
}

/// Builds the outcome from the independent variables and the supplied draw.
///
/// Takes ownership of `ind_vars` and embeds it unchanged, so later stages
/// read the confounder through the result alone.  `e_y` is the sampled shock
/// column and must match the length of `x`.  Fails with the named validation
/// error when `sigma_ey` is not positive.
pub fn dep_var_generate(
    beta: Rat,
    alpha_y: Rat,
    sigma_ey: Rat,
    ind_vars: IndVars,
    e_y: Vec<Rat>,
) -> (r: Result<DepVars, SimError>)
    requires
        beta.wf(),
        alpha_y.wf(),
        sigma_ey.wf(),
        ind_vars.wf(),
        all_wf(e_y@),
    ensures
        r is Ok <==> sigma_ey@.pos() && e_y@.len() == ind_vars.x@.len() && outcome_fits(
            beta,
            alpha_y,
            ind_vars.x@,
            ind_vars.v@,
            e_y@,
        ),
        r matches Ok(dv) ==> {
            &&& dv.wf()
            &&& dv.ind_vars == ind_vars
            &&& dv.e_y@ == e_y@
            &&& dv.beta == beta
            &&& dv.alpha_y == alpha_y
            &&& dv.sigma_ey == sigma_ey
            &&& dv.y@.len() == ind_vars.x@.len()
        },
        !sigma_ey@.pos() ==> r == Err::<DepVars, SimError>(SimError::SigmaEyNotPositive),
        sigma_ey@.pos() && e_y@.len() != ind_vars.x@.len() ==> r == Err::<DepVars, SimError>(
            SimError::DimensionMismatch,
        ),
        sigma_ey@.pos() && e_y@.len() == ind_vars.x@.len() && !outcome_fits(
            beta,
            alpha_y,
            ind_vars.x@,
            ind_vars.v@,
            e_y@,
        ) ==> r == Err::<DepVars, SimError>(SimError::NumericOverflow),
{
    if !sigma_ey.is_positive() {
        return Err(SimError::SigmaEyNotPositive);
    }
    if e_y.len() != ind_vars.x.len() {
        return Err(SimError::DimensionMismatch);
    }
    let n = ind_vars.x.len();
    let mut y: Vec<Rat> = Vec::new();
    let mut i: usize = 0;
    while i < n
        invariant
            i <= n,
            n == ind_vars.x@.len(),
            e_y@.len() == n,
            beta.wf(),
            alpha_y.wf(),
            sigma_ey@.pos(),
            ind_vars.wf(),
            all_wf(e_y@),
            y@.len() == i as int,
            forall|j: int|
                0 <= j < i ==> #[trigger] outcome_row_fits(
                    beta@,
                    ind_vars.x@[j]@,
                    alpha_y@,
                    ind_vars.v@[j]@,
                    e_y@[j]@,
                ),
            forall|j: int|
                0 <= j < i ==> (#[trigger] y@[j])@ == outcome_row(
                    beta@,
                    ind_vars.x@[j]@,
                    alpha_y@,
                    ind_vars.v@[j]@,
                    e_y@[j]@,
                ) && y@[j].wf(),
        decreases n - i,
    {
        let xi = ind_vars.x[i];
        let vi = ind_vars.v[i];
        let ei = e_y[i];
        let bx = match beta.times(&xi) {
            Some(p) => p,
            None => {
                proof {
                    assert(!outcome_row_fits(beta@, xi@, alpha_y@, vi@, ei@));
                }
                return Err(SimError::NumericOverflow);
            },
        };
        let av = match alpha_y.times(&vi) {
            Some(p) => p,
            None => {
                proof {
                    assert(!outcome_row_fits(beta@, xi@, alpha_y@, vi@, ei@));
                }
                return Err(SimError::NumericOverflow);
            },
        };
        let bx_av = match bx.plus(&av) {
            Some(s) => s,
            None => {
                proof {
                    assert(!outcome_row_fits(beta@, xi@, alpha_y@, vi@, ei@));
                }
                return Err(SimError::NumericOverflow);
            },
        };
        let row = match bx_av.plus(&ei) {
            Some(s) => s,
            None => {
                proof {
                    assert(!outcome_row_fits(beta@, xi@, alpha_y@, vi@, ei@));
                }
                return Err(SimError::NumericOverflow);
            },
        };
        proof {
            assert(outcome_row_fits(beta@, xi@, alpha_y@, vi@, ei@));
        }
        y.push(row);
        i += 1;
    }
    Ok(DepVars { y, e_y, alpha_y, beta, sigma_ey, ind_vars })
}

} // verus!
