//! Parameter sweeps over the bias.
//!
//! For each value of `alpha_y` in an ordered list, with the other structural
//! parameters fixed, the sweep records the pair `(alpha_y, bias)`.  The bias
//! reported is the analytic closed-form value: it is a pure function of the
//! parameters, so no fresh draws or solves are needed, and the simulated
//! naive-coefficient bias converges to it as the sample grows.  A value whose
//! bias does not compute is recorded as a failure and skipped; it never
//! aborts the rest of the sweep.

use vstd::prelude::*;

use crate::rat::{all_wf, Frac, Rat};
use crate::regression::{analytic_bias, bias_fits, spec_bias};

verus! {

/// Whether the bias computes for this `alpha_y` under the fixed parameters.
pub open spec fn sweep_step_ok(ay: Rat, ax: Rat, sa: Rat, sex: Rat) -> bool {
    sa@.pos() && sex@.pos() && bias_fits(ay@, ax@, sa@, sex@)
}

/// The sweep values whose bias computes, in input order.
pub open spec fn sweep_kept(values: Seq<Rat>, ax: Rat, sa: Rat, sex: Rat) -> Seq<Rat>
    decreases values.len(),
{
    if values.len() == 0 {
        Seq::empty()
    } else if sweep_step_ok(values.last(), ax, sa, sex) {
        sweep_kept(values.drop_last(), ax, sa, sex).push(values.last())
    } else {
        sweep_kept(values.drop_last(), ax, sa, sex)
    }
}

/// The sweep values whose bias does not compute, in input order.
pub open spec fn sweep_dropped(values: Seq<Rat>, ax: Rat, sa: Rat, sex: Rat) -> Seq<Rat>
    decreases values.len(),
{
    if values.len() == 0 {
        Seq::empty()
    } else if sweep_step_ok(values.last(), ax, sa, sex) {
        sweep_dropped(values.drop_last(), ax, sa, sex)
    } else {
        sweep_dropped(values.drop_last(), ax, sa, sex).push(values.last())
    }
}

/// The outcome of a sweep: the parameter values whose bias computed with
/// their biases as parallel sequences in input order, and the values that
/// failed, recorded for the caller to log.
#[derive(Debug)]
pub struct SweepOutcome {
    pub param_values: Vec<Rat>,
    pub bias_values: Vec<Rat>,
    pub failures: Vec<Rat>,
}

/// Sweeps `alpha_y` over the given values with the other parameters fixed,
/// pairing each value with its analytic bias.
pub fn sweep_bias(sigma_a: &Rat, sigma_ex: &Rat, alpha_x: &Rat, alpha_y_values: &Vec<Rat>) -> (r:
    SweepOutcome)
    requires
        sigma_a.wf(),
        sigma_ex.wf(),
        alpha_x.wf(),
        all_wf(alpha_y_values@),
    ensures
        r.param_values@ == sweep_kept(alpha_y_values@, *alpha_x, *sigma_a, *sigma_ex),
        r.failures@ == sweep_dropped(alpha_y_values@, *alpha_x, *sigma_a, *sigma_ex),
        r.bias_values@.len() == r.param_values@.len(),
        forall|i: int|
            0 <= i < r.param_values@.len() ==> (#[trigger] r.bias_values@[i]).wf()
                && r.bias_values@[i]@ == spec_bias(
                r.param_values@[i]@,
                alpha_x@,
                sigma_a@,
                sigma_ex@,
            ),
{
    let n = alpha_y_values.len();
    let mut param_values: Vec<Rat> = Vec::new();
    let mut bias_values: Vec<Rat> = Vec::new();
    let mut failures: Vec<Rat> = Vec::new();
    let mut i: usize = 0;
    while i < n
        invariant
            i <= n,
            n == alpha_y_values@.len(),
            sigma_a.wf(),
            sigma_ex.wf(),
            alpha_x.wf(),
            all_wf(alpha_y_values@),
            param_values@ == sweep_kept(
                alpha_y_values@.take(i as int),
                *alpha_x,
                *sigma_a,
                *sigma_ex,
            ),
            failures@ == sweep_dropped(
                alpha_y_values@.take(i as int),
                *alpha_x,
                *sigma_a,
                *sigma_ex,
            ),
            bias_values@.len() == param_values@.len(),
            forall|j: int|
                0 <= j < param_values@.len() ==> (#[trigger] bias_values@[j]).wf()
                    && bias_values@[j]@ == spec_bias(
                    param_values@[j]@,
                    alpha_x@,
                    sigma_a@,
                    sigma_ex@,
                ),
        decreases n - i,
    {
        let ay = alpha_y_values[i];
        proof {
            assert(alpha_y_values@.take(i as int + 1).drop_last() =~= alpha_y_values@.take(
                i as int,
            ));
            assert(alpha_y_values@.take(i as int + 1).last() == alpha_y_values@[i as int]);
        }
        match analytic_bias(&ay, alpha_x, sigma_a, sigma_ex) {
            Ok(b) => {
                param_values.push(ay);
                bias_values.push(b);
            },
            Err(_) => {
                failures.push(ay);
            },
        }
        i += 1;
    }
    proof {
        assert(alpha_y_values@.take(n as int) =~= alpha_y_values@);
    }
    SweepOutcome { param_values, bias_values, failures }
}

/// A sweep loses no value: every entry of the input lands either among the
/// kept values or among the recorded failures, so a failed entry skips one
/// pair and never aborts the rest.
pub proof fn lemma_sweep_partition(values: Seq<Rat>, ax: Rat, sa: Rat, sex: Rat)
    ensures
        sweep_kept(values, ax, sa, sex).len() + sweep_dropped(values, ax, sa, sex).len()
            == values.len(),
    decreases values.len(),
{
    if values.len() > 0 {
        lemma_sweep_partition(values.drop_last(), ax, sa, sex);
    }
}

/// The analytic bias is monotone in `alpha_y` when `alpha_x` is positive:
/// its closed form is linear in `alpha_y` with the nonnegative slope
/// `alpha_x * sigma_a^2 / (alpha_x^2 * sigma_a^2 + sigma_ex^2)`, so a sweep
/// over increasing `alpha_y` values yields increasing bias values.
pub proof fn lemma_bias_monotone_in_alpha_y(ay1: Frac, ay2: Frac, ax: Frac, sa: Frac, sex: Frac)
    requires
        ay1.wf(),
        ay2.wf(),
        ax.wf(),
        sa.wf(),
        sex.wf(),
        sa.pos(),
        sex.pos(),
        ax.pos(),
        ay1.le(ay2),
    ensures
        spec_bias(ay1, ax, sa, sex).le(spec_bias(ay2, ax, sa, sex)),
{
    let d = ax.times(ax).times(sa.times(sa)).plus(sex.times(sex));
    let b1 = spec_bias(ay1, ax, sa, sex);
    let b2 = spec_bias(ay2, ax, sa, sex);
    assert(d.num == ((ax.num * ax.num) * (sa.num * sa.num)) * (sex.den * sex.den) + (sex.num
        * sex.num) * ((ax.den * ax.den) * (sa.den * sa.den)));
    assert(d.num > 0) by (nonlinear_arith)
        requires
            ax.num > 0,
            sa.num > 0,
            sex.num > 0,
            ax.den > 0,
            sa.den > 0,
            sex.den > 0,
            d.num == ((ax.num * ax.num) * (sa.num * sa.num)) * (sex.den * sex.den) + (sex.num
                * sex.num) * ((ax.den * ax.den) * (sa.den * sa.den)),
    ;
    assert(d.den > 0) by (nonlinear_arith)
        requires
            ax.den > 0,
            sa.den > 0,
            sex.den > 0,
            d.den == ((ax.den * ax.den) * (sa.den * sa.den)) * (sex.den * sex.den),
    ;
    let s = sa.num * sa.num;
    let t = sa.den * sa.den;
    let p = (ax.num * s) * d.den;
    let q = (ax.den * t) * d.num;
    assert(s > 0) by (nonlinear_arith)
        requires
            sa.num > 0,
            s == sa.num * sa.num,
    ;
    assert(t > 0) by (nonlinear_arith)
        requires
            sa.den > 0,
            t == sa.den * sa.den,
    ;
    assert(p > 0) by (nonlinear_arith)
        requires
            ax.num > 0,
            s > 0,
            d.den > 0,
            p == (ax.num * s) * d.den,
    ;
    assert(q > 0) by (nonlinear_arith)
        requires
            ax.den > 0,
            t > 0,
            d.num > 0,
            q == (ax.den * t) * d.num,
    ;
    assert(b1.num == ay1.num * p) by (nonlinear_arith)
        requires
            b1.num == ((ay1.num * ax.num) * s) * d.den,
            p == (ax.num * s) * d.den,
    ;
    assert(b2.num == ay2.num * p) by (nonlinear_arith)
        requires
            b2.num == ((ay2.num * ax.num) * s) * d.den,
            p == (ax.num * s) * d.den,
    ;
    assert(b1.den == ay1.den * q) by (nonlinear_arith)
        requires
            b1.den == ((ay1.den * ax.den) * t) * d.num,
            q == (ax.den * t) * d.num,
    ;
    assert(b2.den == ay2.den * q) by (nonlinear_arith)
        requires
            b2.den == ((ay2.den * ax.den) * t) * d.num,
            q == (ax.den * t) * d.num,
    ;
    assert(b1.num * b2.den == (ay1.num * ay2.den) * (p * q)) by (nonlinear_arith)
        requires
            b1.num == ay1.num * p,
            b2.den == ay2.den * q,
    ;
    assert(b2.num * b1.den == (ay2.num * ay1.den) * (p * q)) by (nonlinear_arith)
        requires
            b2.num == ay2.num * p,
            b1.den == ay1.den * q,
    ;
    assert(p * q >= 0) by (nonlinear_arith)
        requires
            p > 0,
            q > 0,
    ;
    assert((ay1.num * ay2.den) * (p * q) <= (ay2.num * ay1.den) * (p * q)) by (nonlinear_arith)
        requires
            ay1.num * ay2.den <= ay2.num * ay1.den,
            p * q >= 0,
    ;
}

} // verus!
