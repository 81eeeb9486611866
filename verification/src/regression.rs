//! Experiment orchestration: from parameters and draws to regression-ready
//! least-squares problems, and the closed-form bias of the naive estimate.
//!
//! Solving a least-squares problem is the business of an outside collaborator;
//! this module prepares each problem exactly — which columns, in which order,
//! against which response — and computes the analytic bias
//! `(alpha_y * alpha_x * sigma_a^2) / (alpha_x^2 * sigma_a^2 + sigma_ex^2)`
//! as an exact rational, independent of any simulated draw.

use vstd::prelude::*;

use crate::error::SimError;
use crate::generate::{
    dep_var_generate, ind_var_generate, outcome_fits, outcome_row, outcome_row_fits, scaled_sum,
    scaled_sum_fits, scaled_sum_row, DepVars, IndVars,
};
use crate::rat::{all_wf, over_fits, plus_fits, times_fits, Frac, Rat};

verus! {

/// The parameters of one experiment, named to keep their order unmistakable.
#[derive(Clone, Copy, Debug)]
pub struct ExperimentConfig {
    /// Number of observations in every generated column.
    pub n: usize,
    /// Coefficient of `x` in the outcome equation.
    pub beta: Rat,
    /// Coefficient of the confounder `v` in the outcome equation.
    pub alpha_y: Rat,
    /// Coefficient of the confounder `v` in the regressor equation.
    pub alpha_x: Rat,
    /// Standard deviation of the confounder `v`.
    pub sigma_a: Rat,
    /// Standard deviation of the shock `e_x`.
    pub sigma_ex: Rat,
    /// Standard deviation of the shock `e_y`.
    pub sigma_ey: Rat,
    /// Whether the fitted models include an intercept.
    pub include_intercept: bool,
}

impl ExperimentConfig {
    /// Every parameter is a well-formed rational.
    pub open spec fn wf(self) -> bool {
        &&& self.beta.wf()
        &&& self.alpha_y.wf()
        &&& self.alpha_x.wf()
        &&& self.sigma_a.wf()
        &&& self.sigma_ex.wf()
        &&& self.sigma_ey.wf()
    }
}

/// One least-squares problem, ready for the outside solver: design-matrix
/// columns in their fixed order, the response column, and the intercept
/// choice.  Coefficients come back in column order.
#[derive(Debug)]
pub struct FitRequest {
    pub columns: Vec<Vec<Rat>>,
    pub response: Vec<Rat>,
    pub intercept: bool,
}

impl FitRequest {
    /// Every column matches the response in length, and every entry is a
    /// well-formed rational.
    pub open spec fn wf(self) -> bool {
        &&& forall|c: int|
            0 <= c < self.columns@.len() ==> (#[trigger] self.columns@[c])@.len()
                == self.response@.len() && all_wf(self.columns@[c]@)
        &&& all_wf(self.response@)
    }
}

/// The regression-ready bundle extracted once generation is complete, so the
/// comparison regressions need no nested field paths.
#[derive(Debug)]
pub struct GeneratedData {
    pub y: Vec<Rat>,
    pub x: Vec<Rat>,
    pub v: Vec<Rat>,
    pub e_y: Vec<Rat>,
    pub sigma_ex: Rat,
    pub sigma_a: Rat,
    pub alpha_x: Rat,
    pub alpha_y: Rat,
}

impl GeneratedData {
    /// Columns share one length, every entry is well-formed, and the
    /// standard deviations are positive.
    pub open spec fn wf(self) -> bool {
        &&& self.alpha_x.wf()
        &&& self.alpha_y.wf()
        &&& self.sigma_a.wf()
        &&& self.sigma_ex.wf()
        &&& self.sigma_a@.pos()
        &&& self.sigma_ex@.pos()
        &&& all_wf(self.y@)
        &&& all_wf(self.x@)
        &&& all_wf(self.v@)
        &&& all_wf(self.e_y@)
        &&& self.x@.len() == self.y@.len()
        &&& self.v@.len() == self.y@.len()
        &&& self.e_y@.len() == self.y@.len()
    }
}

/// An element-for-element copy of a column.
fn copy_column(src: &Vec<Rat>) -> (r: Vec<Rat>)
    ensures
        r@ == src@,
{
    let n = src.len();
    let mut out: Vec<Rat> = Vec::new();
    let mut i: usize = 0;
    while i < n
        invariant
            i <= n,
            n == src@.len(),
            out@.len() == i as int,
            forall|j: int| 0 <= j < i ==> out@[j] == src@[j],
        decreases n - i,
    {
        out.push(src[i]);
        i += 1;
    }
    proof {
        assert(out@ =~= src@);
    }
    out
}

/// The closed-form asymptotic bias of the naive estimate:
/// `(alpha_y * alpha_x * sigma_a^2) / (alpha_x^2 * sigma_a^2 + sigma_ex^2)`,
/// as an exact fraction.
pub open spec fn spec_bias(ay: Frac, ax: Frac, sa: Frac, sex: Frac) -> Frac {
    ay.times(ax).times(sa.times(sa)).over(ax.times(ax).times(sa.times(sa)).plus(sex.times(sex)))
}

/// Every step of the bias formula is representable.
pub open spec fn bias_fits(ay: Frac, ax: Frac, sa: Frac, sex: Frac) -> bool {
    &&& times_fits(sa, sa)
    &&& times_fits(ay, ax)
    &&& times_fits(ay.times(ax), sa.times(sa))
    &&& times_fits(ax, ax)
    &&& times_fits(ax.times(ax), sa.times(sa))
    &&& times_fits(sex, sex)
    &&& plus_fits(ax.times(ax).times(sa.times(sa)), sex.times(sex))
    &&& over_fits(
        ay.times(ax).times(sa.times(sa)),
        ax.times(ax).times(sa.times(sa)).plus(sex.times(sex)),
    )
}

/// Computes the analytic bias as a standalone pure function of the four
/// structural parameters, with the same validation as the generators.
pub fn analytic_bias(alpha_y: &Rat, alpha_x: &Rat, sigma_a: &Rat, sigma_ex: &Rat) -> (r: Result<
    Rat,
    SimError,
>)
    requires
        alpha_y.wf(),
        alpha_x.wf(),
        sigma_a.wf(),
        sigma_ex.wf(),
    ensures
        r is Ok <==> sigma_a@.pos() && sigma_ex@.pos() && bias_fits(
            alpha_y@,
            alpha_x@,
            sigma_a@,
            sigma_ex@,
        ),
        r matches Ok(b) ==> b.wf() && b@ == spec_bias(alpha_y@, alpha_x@, sigma_a@, sigma_ex@),
        !sigma_a@.pos() ==> r == Err::<Rat, SimError>(SimError::SigmaANotPositive),
        sigma_a@.pos() && !sigma_ex@.pos() ==> r == Err::<Rat, SimError>(
            SimError::SigmaExNotPositive,
        ),
        sigma_a@.pos() && sigma_ex@.pos() && !bias_fits(alpha_y@, alpha_x@, sigma_a@, sigma_ex@)
            ==> r == Err::<Rat, SimError>(SimError::NumericOverflow),
{
    if !sigma_a.is_positive() {
        return Err(SimError::SigmaANotPositive);
    }
    if !sigma_ex.is_positive() {
        return Err(SimError::SigmaExNotPositive);
    }
    let sa2 = match sigma_a.times(sigma_a) {
        Some(p) => p,
        None => {
            return Err(SimError::NumericOverflow);
        },
    };
    let ayax = match alpha_y.times(alpha_x) {
        Some(p) => p,
        None => {
            return Err(SimError::NumericOverflow);
        },
    };
    let num_part = match ayax.times(&sa2) {
        Some(p) => p,
        None => {
            return Err(SimError::NumericOverflow);
        },
    };
    let ax2 = match alpha_x.times(alpha_x) {
        Some(p) => p,
        None => {
            return Err(SimError::NumericOverflow);
        },
    };
    let axsa = match ax2.times(&sa2) {
        Some(p) => p,
        None => {
            return Err(SimError::NumericOverflow);
        },
    };
    let sex2 = match sigma_ex.times(sigma_ex) {
        Some(p) => p,
        None => {
            return Err(SimError::NumericOverflow);
        },
    };
    let den_part = match axsa.plus(&sex2) {
        Some(p) => p,
        None => {
            return Err(SimError::NumericOverflow);
        },
    };
    proof {
        assert(axsa@.num >= 0) by (nonlinear_arith)
            requires
                axsa@.num == (alpha_x@.num * alpha_x@.num) * (sigma_a@.num * sigma_a@.num),
        ;
        assert(sex2@.num > 0) by (nonlinear_arith)
            requires
                sex2@.num == sigma_ex@.num * sigma_ex@.num,
                sigma_ex@.num > 0,
        ;
        assert(den_part@.num > 0) by (nonlinear_arith)
            requires
                den_part@.num == axsa@.num * sex2@.den + sex2@.num * axsa@.den,
                axsa@.num >= 0,
                sex2@.den > 0,
                sex2@.num > 0,
                axsa@.den > 0,
        ;
    }
    let b = match num_part.over(&den_part) {
        Some(b) => b,
        None => {
            return Err(SimError::NumericOverflow);
        },
    };
    Ok(b)
}

/// Every exact step of the whole generation pipeline — building `x`, then
/// `y` — is representable for the given parameters and draws.
pub open spec fn pipeline_fits(
    cfg: ExperimentConfig,
    v: Seq<Rat>,
    e_x: Seq<Rat>,
    e_y: Seq<Rat>,
) -> bool {
    &&& scaled_sum_fits(cfg.alpha_x, v, e_x)
    &&& forall|i: int|
        0 <= i < v.len() ==> #[trigger] outcome_row_fits(
            cfg.beta@,
            scaled_sum_row(cfg.alpha_x@, v[i]@, e_x[i]@),
            cfg.alpha_y@,
            v[i]@,
            e_y[i]@,
        )
}

/// Runs the full regression of `y` on `[x, v]` up to the outside solve.
///
/// Generates the independent then the dependent variables from the supplied
/// draws, places `x` as column 0 and the confounder `v` as column 1 of the
/// design matrix — the fixed order the coefficient contract relies on — and
/// returns the ready problem together with the flattened bundle.  Any
/// generation failure is propagated as the single orchestration error, with
/// no partial results.
pub fn run_yxv_regression(config: &ExperimentConfig, v: Vec<Rat>, e_x: Vec<Rat>, e_y: Vec<Rat>)
    -> (r: Result<(FitRequest, GeneratedData), SimError>)
    requires
        config.wf(),
        all_wf(v@),
        all_wf(e_x@),
        all_wf(e_y@),
    ensures
        r is Ok <==> v@.len() == config.n && e_x@.len() == config.n && e_y@.len() == config.n
            && config.sigma_a@.pos() && config.sigma_ex@.pos() && config.sigma_ey@.pos()
            && pipeline_fits(*config, v@, e_x@, e_y@),
        r matches Ok(t) ==> {
            &&& t.0.intercept == config.include_intercept
            &&& t.0.columns@.len() == 2
            &&& t.0.columns@[0]@ == t.1.x@
            &&& t.0.columns@[1]@ == t.1.v@
            &&& t.0.response@ == t.1.y@
            &&& t.0.wf()
            &&& t.1.wf()
            &&& t.1.v@ == v@
            &&& t.1.e_y@ == e_y@
            &&& t.1.alpha_x == config.alpha_x
            &&& t.1.alpha_y == config.alpha_y
            &&& t.1.sigma_a == config.sigma_a
            &&& t.1.sigma_ex == config.sigma_ex
            &&& t.1.x@.len() == config.n
            &&& t.1.y@.len() == config.n
            &&& forall|i: int|
                0 <= i < config.n ==> (#[trigger] t.1.x@[i])@ == scaled_sum_row(
                    config.alpha_x@,
                    v@[i]@,
                    e_x@[i]@,
                )
            &&& forall|i: int|
                0 <= i < config.n ==> (#[trigger] t.1.y@[i])@ == outcome_row(
                    config.beta@,
                    t.1.x@[i]@,
                    config.alpha_y@,
                    v@[i]@,
                    e_y@[i]@,
                )
        },
        !(v@.len() == config.n && e_x@.len() == config.n && e_y@.len() == config.n) ==> r == Err::<
            (FitRequest, GeneratedData),
            SimError,
        >(SimError::DimensionMismatch),
        v@.len() == config.n && e_x@.len() == config.n && e_y@.len() == config.n
            && !config.sigma_a@.pos() ==> r == Err::<(FitRequest, GeneratedData), SimError>(
            SimError::SigmaANotPositive,
        ),
        v@.len() == config.n && e_x@.len() == config.n && e_y@.len() == config.n
            && config.sigma_a@.pos() && !config.sigma_ex@.pos() ==> r == Err::<
            (FitRequest, GeneratedData),
            SimError,
        >(SimError::SigmaExNotPositive),
        v@.len() == config.n && e_x@.len() == config.n && e_y@.len() == config.n
            && config.sigma_a@.pos() && config.sigma_ex@.pos() && !scaled_sum_fits(
            config.alpha_x,
            v@,
            e_x@,
        ) ==> r == Err::<(FitRequest, GeneratedData), SimError>(SimError::NumericOverflow),
        v@.len() == config.n && e_x@.len() == config.n && e_y@.len() == config.n
            && config.sigma_a@.pos() && config.sigma_ex@.pos() && scaled_sum_fits(
            config.alpha_x,
            v@,
            e_x@,
        ) && !config.sigma_ey@.pos() ==> r == Err::<(FitRequest, GeneratedData), SimError>(
            SimError::SigmaEyNotPositive,
        ),
        v@.len() == config.n && e_x@.len() == config.n && e_y@.len() == config.n
            && config.sigma_a@.pos() && config.sigma_ex@.pos() && config.sigma_ey@.pos()
            && scaled_sum_fits(config.alpha_x, v@, e_x@) && !pipeline_fits(*config, v@, e_x@, e_y@)
            ==> r == Err::<(FitRequest, GeneratedData), SimError>(SimError::NumericOverflow),
{
    if v.len() != config.n || e_x.len() != config.n || e_y.len() != config.n {
        return Err(SimError::DimensionMismatch);
    }
    let ghost v0 = v@;
    let ghost ex0 = e_x@;
    let iv = match ind_var_generate(config.alpha_x, config.sigma_a, config.sigma_ex, v, e_x) {
        Ok(iv) => iv,
        Err(e) => {
            return Err(e);
        },
    };
    let ghost iv_snap = iv;
    let dv = match dep_var_generate(config.beta, config.alpha_y, config.sigma_ey, iv, e_y) {
        Ok(dv) => dv,
        Err(e) => {
            proof {
                if e is NumericOverflow {
                    lemma_pipeline_bridge(*config, v0, ex0, e_y@, iv_snap);
                }
            }
            return Err(e);
        },
    };
    proof {
        lemma_pipeline_bridge(*config, v0, ex0, e_y@, dv.ind_vars);
    }
    let x_col = copy_column(&dv.ind_vars.x);
    let v_col = copy_column(&dv.ind_vars.v);
    let y_col = copy_column(&dv.y);
    let mut columns: Vec<Vec<Rat>> = Vec::new();
    columns.push(x_col);
    columns.push(v_col);
    let req = FitRequest { columns, response: y_col, intercept: config.include_intercept };
    let DepVars { y, e_y: e_y_out, alpha_y, beta: _, sigma_ey: _, ind_vars } = dv;
    let IndVars { v: v_out, e_x: _, x, alpha_x, sigma_a, sigma_ex } = ind_vars;
    let data = GeneratedData {
        y,
        x,
        v: v_out,
        e_y: e_y_out,
        sigma_ex,
        sigma_a,
        alpha_x,
        alpha_y,
    };
    Ok((req, data))
}

/// With `x` generated as `alpha_x * v + e_x`, the representability of the
/// outcome rows over the generated column is the representability of the
/// outcome rows written out over the draws.
proof fn lemma_pipeline_bridge(
    cfg: ExperimentConfig,
    v: Seq<Rat>,
    e_x: Seq<Rat>,
    e_y: Seq<Rat>,
    iv: IndVars,
)
    requires
        iv.wf(),
        iv.v@ == v,
        iv.e_x@ == e_x,
        iv.alpha_x == cfg.alpha_x,
        e_y.len() == v.len(),
    ensures
        outcome_fits(cfg.beta, cfg.alpha_y, iv.x@, iv.v@, e_y) <==> forall|i: int|
            0 <= i < v.len() ==> #[trigger] outcome_row_fits(
                cfg.beta@,
                scaled_sum_row(cfg.alpha_x@, v[i]@, e_x[i]@),
                cfg.alpha_y@,
                v[i]@,
                e_y[i]@,
            ),
{
    if outcome_fits(cfg.beta, cfg.alpha_y, iv.x@, iv.v@, e_y) {
        assert forall|i: int| 0 <= i < v.len() implies #[trigger] outcome_row_fits(
            cfg.beta@,
            scaled_sum_row(cfg.alpha_x@, v[i]@, e_x[i]@),
            cfg.alpha_y@,
            v[i]@,
            e_y[i]@,
        ) by {
            assert(iv.x@[i]@ == scaled_sum_row(cfg.alpha_x@, v[i]@, e_x[i]@));
            assert(outcome_row_fits(cfg.beta@, iv.x@[i]@, cfg.alpha_y@, iv.v@[i]@, e_y[i]@));
        }
    }
    if forall|i: int|
        0 <= i < v.len() ==> #[trigger] outcome_row_fits(
            cfg.beta@,
            scaled_sum_row(cfg.alpha_x@, v[i]@, e_x[i]@),
            cfg.alpha_y@,
            v[i]@,
            e_y[i]@,
        ) {
        assert forall|i: int| 0 <= i < iv.x@.len() implies #[trigger] outcome_row_fits(
            cfg.beta@,
            iv.x@[i]@,
            cfg.alpha_y@,
            iv.v@[i]@,
            e_y[i]@,
        ) by {
            assert(iv.x@[i]@ == scaled_sum_row(cfg.alpha_x@, v[i]@, e_x[i]@));
            assert(outcome_row_fits(
                cfg.beta@,
                scaled_sum_row(cfg.alpha_x@, v[i]@, e_x[i]@),
                cfg.alpha_y@,
                v[i]@,
                e_y[i]@,
            ));
        }
    }
}

/// Runs the two comparison regressions up to the outside solve, and the
/// analytic bias.
///
/// The first problem is the naive regression of `y` on `x` alone — the
/// biased estimator under study.  The second regresses the composite error
/// `alpha_y * v + e_y` on `x`, quantifying how much of the naive coefficient
/// the omitted confounder explains.  The bias is the closed-form value from
/// the structural parameters, independent of the draws.
pub fn run_other_regressions(data: &GeneratedData, intercept: bool) -> (r: Result<
    (FitRequest, FitRequest, Rat),
    SimError,
>)
    requires
        data.wf(),
    ensures
        r is Ok <==> scaled_sum_fits(data.alpha_y, data.v@, data.e_y@) && bias_fits(
            data.alpha_y@,
            data.alpha_x@,
            data.sigma_a@,
            data.sigma_ex@,
        ),
        r matches Ok(t) ==> {
            &&& t.0.intercept == intercept
            &&& t.0.columns@.len() == 1
            &&& t.0.columns@[0]@ == data.x@
            &&& t.0.response@ == data.y@
            &&& t.0.wf()
            &&& t.1.intercept == intercept
            &&& t.1.columns@.len() == 1
            &&& t.1.columns@[0]@ == data.x@
            &&& t.1.response@.len() == data.v@.len()
            &&& t.1.wf()
            &&& forall|i: int|
                0 <= i < data.v@.len() ==> (#[trigger] t.1.response@[i])@ == scaled_sum_row(
                    data.alpha_y@,
                    data.v@[i]@,
                    data.e_y@[i]@,
                )
            &&& t.2.wf()
            &&& t.2@ == spec_bias(data.alpha_y@, data.alpha_x@, data.sigma_a@, data.sigma_ex@)
        },
        r is Err ==> r == Err::<(FitRequest, FitRequest, Rat), SimError>(
            SimError::NumericOverflow,
        ),
{
    let yx_req = FitRequest {
        columns: {
            let mut cols: Vec<Vec<Rat>> = Vec::new();
            cols.push(copy_column(&data.x));
            cols
        },
        response: copy_column(&data.y),
        intercept,
    };
    let ve = match scaled_sum(&data.alpha_y, &data.v, &data.e_y) {
        Ok(ve) => ve,
        Err(e) => {
            return Err(e);
        },
    };
    let ve_req = FitRequest {
        columns: {
            let mut cols: Vec<Vec<Rat>> = Vec::new();
            cols.push(copy_column(&data.x));
            cols
        },
        response: ve,
        intercept,
    };
    let bias = match analytic_bias(&data.alpha_y, &data.alpha_x, &data.sigma_a, &data.sigma_ex) {
        Ok(b) => b,
        Err(e) => {
            return Err(e);
        },
    };
    Ok((yx_req, ve_req, bias))
}

/// The analytic bias is a pure function of `(alpha_y, alpha_x, sigma_a,
/// sigma_ex)` alone: two bundles that agree on those four parameters share
/// it, whatever their columns — and it never reads `beta`, `sigma_ey` or the
/// sample size.
pub proof fn lemma_bias_param_only(d1: GeneratedData, d2: GeneratedData)
    requires
        d1.alpha_y == d2.alpha_y,
        d1.alpha_x == d2.alpha_x,
        d1.sigma_a == d2.sigma_a,
        d1.sigma_ex == d2.sigma_ex,
    ensures
        spec_bias(d1.alpha_y@, d1.alpha_x@, d1.sigma_a@, d1.sigma_ex@) == spec_bias(
            d2.alpha_y@,
            d2.alpha_x@,
            d2.sigma_a@,
            d2.sigma_ex@,
        ),
{
}

} // verus!
