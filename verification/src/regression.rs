//! The fitted linear model and its operations: fitting, forecasting, and
//! the fit-quality metrics.

use vstd::prelude::*;

use crate::fp::fadd;
use crate::fp::fadd_bits;
use crate::fp::fdiv;
use crate::fp::fdiv_bits;
use crate::fp::feq;
use crate::fp::fmul;
use crate::fp::fmul_bits;
use crate::fp::fp_eq;
use crate::fp::fp_from_usize;
use crate::fp::fp_of_int;
use crate::fp::fsub;
use crate::fp::fsub_bits;

verus! {

/// Coefficients of a fitted least-squares line `y = slope * x + intercept`.
/// Both fields are bit patterns of IEEE-754 doubles.
pub struct LinearRegression {
    pub slope: u64,
    pub intercept: u64,
}

/// Bit pattern of the left-to-right sum of the doubles in `s`, starting
/// from `+0.0`.
pub open spec fn fsum(s: Seq<u64>) -> u64
    decreases s.len(),
{
    if s.len() == 0 {
        fp_of_int(0)
    } else {
        fadd_bits(fsum(s.drop_last()), s.last())
    }
}

/// Bit pattern of the arithmetic mean of the doubles in `s`: their
/// left-to-right sum divided by the double for `s.len()` (a NaN when `s`
/// is empty, from the quotient `0.0 / 0.0`).
pub open spec fn fmean(s: Seq<u64>) -> u64 {
    fdiv_bits(fsum(s), fp_of_int(s.len() as int))
}

/// Left-to-right sum of the doubles in `data`, then division by the
/// double for `data.len()`. Of the one sequence holding only `+0.0` the
/// mean is `+0.0` again.
fn mean(data: &Vec<u64>) -> (r: u64)
    ensures
        r == fmean(data@),
        data@.len() == 1 && data@[0] == fp_of_int(0) ==> r == fp_of_int(0),
{
    let n = data.len();
    let mut sum: u64 = fp_from_usize(0);
    let mut i: usize = 0;
    while i < n
        invariant
            i <= n,
            n == data@.len(),
            sum == fsum(data@.take(i as int)),
            n == 1 && data@[0] == fp_of_int(0) && i == 1 ==> sum == fp_of_int(0),
        decreases n - i,
    {
        proof {
            assert(data@.take(i + 1).drop_last() =~= data@.take(i as int));
        }
        sum = fadd(sum, data[i]);
        i = i + 1;
    }
    proof {
        assert(data@.take(n as int) =~= data@);
    }
    fdiv(sum, fp_from_usize(n))
}

/// The doubles for the implicit x-coordinates `0, 1, ..., n - 1`.
pub open spec fn index_doubles(n: int) -> Seq<u64> {
    Seq::new(n as nat, |i: int| fp_of_int(i))
}

/// Running numerator of the slope estimate over the first `k` samples:
/// the left-to-right sum of `(x_i - mean_x) * (y_i - mean_y)`.
pub open spec fn slope_numerator(s: Seq<u64>, mean_x: u64, mean_y: u64, k: int) -> u64
    decreases k,
{
    if k <= 0 {
        fp_of_int(0)
    } else {
        fadd_bits(
            slope_numerator(s, mean_x, mean_y, k - 1),
            fmul_bits(
                fsub_bits(fp_of_int(k - 1), mean_x),
                fsub_bits(s[k - 1], mean_y),
            ),
        )
    }
}

/// Running denominator of the slope estimate over the first `k`
/// x-coordinates: the left-to-right sum of `(x_i - mean_x)^2`.
pub open spec fn slope_denominator(mean_x: u64, k: int) -> u64
    decreases k,
{
    if k <= 0 {
        fp_of_int(0)
    } else {
        fadd_bits(
            slope_denominator(mean_x, k - 1),
            (
                {
                    let dx = fsub_bits(fp_of_int(k - 1), mean_x);
                    fmul_bits(dx, dx)
                }
            ),
        )
    }
}

/// What `fit` returns on a series with view `s`: no model when `s` is
/// empty or the x-variance term comes out equal to zero, and otherwise the
/// closed-form least-squares coefficients, each pinned down to the exact
/// bit pattern that the IEEE-754 computation produces.
pub open spec fn spec_fit(s: Seq<u64>) -> Option<LinearRegression> {
    if s.len() == 0 {
        None
    } else {
        let mean_x = fmean(index_doubles(s.len() as int));
        let mean_y = fmean(s);
        let den = slope_denominator(mean_x, s.len() as int);
        if fp_eq(den, fp_of_int(0)) {
            None
        } else {
            let slope = fdiv_bits(slope_numerator(s, mean_x, mean_y, s.len() as int), den);
            Some(
                LinearRegression {
                    slope,
                    intercept: fsub_bits(mean_y, fmul_bits(slope, mean_x)),
                },
            )
        }
    }
}

impl LinearRegression {
    /// Fits the least-squares line `y = slope * x + intercept` to the
    /// samples of `series` taken at the x-coordinates `0, 1, ..., n-1`:
    /// `slope = sum((x_i - mean_x) * (y_i - mean_y)) / sum((x_i - mean_x)^2)`
    /// and `intercept = mean_y - slope * mean_x`. Returns no model exactly
    /// when the series is empty or the denominator comes out equal to
    /// zero (as it does for a single sample, whose x-variance is zero).
    pub fn fit(series: &Vec<u64>) -> (r: Option<LinearRegression>)
        ensures
            r == spec_fit(series@),
            series@.len() == 0 ==> r is None,
            series@.len() == 1 ==> r is None,
    {
        let n = series.len();
        if n == 0 {
            return None;
        }

        let mut x_vals: Vec<u64> = Vec::new();
        let mut i: usize = 0;
        while i < n
            invariant
                i <= n,
                x_vals@.len() == i,
                forall|j: int| 0 <= j < i ==> x_vals@[j] == fp_of_int(j),
            decreases n - i,
        {
            x_vals.push(fp_from_usize(i));
            i = i + 1;
        }
        proof {
            assert(x_vals@ =~= index_doubles(n as int));
        }

        let mean_x = mean(&x_vals);
        let mean_y = mean(series);

        // For a single sample the lone x-coordinate is 0.0 and its mean is
        // +0.0 again; the x-variance sum below then stays +0.0, so the zero
        // test is taken and no model comes out.
        let mut numerator: u64 = fp_from_usize(0);
        let mut denominator: u64 = fp_from_usize(0);
        let mut i: usize = 0;
        while i < n
            invariant
                i <= n,
                n == series@.len(),
                x_vals@.len() == n,
                forall|j: int| 0 <= j < n ==> x_vals@[j] == fp_of_int(j),
                numerator == slope_numerator(series@, mean_x, mean_y, i as int),
                denominator == slope_denominator(mean_x, i as int),
                n == 1 ==> mean_x == fp_of_int(0),
                n == 1 ==> denominator == fp_of_int(0),
            decreases n - i,
        {
            let dx = fsub(x_vals[i], mean_x);
            let dy = fsub(series[i], mean_y);
            numerator = fadd(numerator, fmul(dx, dy));
            denominator = fadd(denominator, fmul(dx, dx));
            i = i + 1;
        }

        if feq(denominator, fp_from_usize(0)) {
            return None;
        }

        let slope = fdiv(numerator, denominator);
        let intercept = fsub(mean_y, fmul(slope, mean_x));
        Some(LinearRegression { slope, intercept })
    }

    /// Forecasts the next `n_future` values after the sample at
    /// `last_index`: the value for each x-coordinate
    /// `last_index + 1, ..., last_index + n_future`, in increasing time
    /// order. A count of zero yields an empty forecast.
    pub fn predict(&self, last_index: usize, n_future: usize) -> (r: Vec<u64>)
        requires
            last_index + n_future <= usize::MAX,
        ensures
            r@.len() == n_future,
            forall|j: int|
                0 <= j < n_future ==> r@[j] == predicted_at(
                    self.slope,
                    self.intercept,
                    last_index + 1 + j,
                ),
            n_future == 0 ==> r@ =~= Seq::<u64>::empty(),
    {
        let mut out: Vec<u64> = Vec::new();
        let mut i: usize = 0;
        while i < n_future
            invariant
                i <= n_future,
                last_index + n_future <= usize::MAX,
                out@.len() == i,
                forall|j: int|
                    0 <= j < i ==> out@[j] == predicted_at(
                        self.slope,
                        self.intercept,
                        last_index + 1 + j,
                    ),
            decreases n_future - i,
        {
            let x = fp_from_usize(last_index + 1 + i);
            out.push(fadd(fmul(self.slope, x), self.intercept));
            i = i + 1;
        }
        out
    }

    /// Mean squared error of the model's in-sample predictions against
    /// `series`: the left-to-right sum of `(predicted_i - y_i)^2` for
    /// `i = 0, ..., n-1`, divided by the double for `n` (a NaN on an empty
    /// series, from the quotient `0.0 / 0.0`).
    pub fn mse(&self, series: &Vec<u64>) -> (r: u64)
        ensures
            r == spec_mse(self.slope, self.intercept, series@),
    {
        let n = series.len();
        let mut acc: u64 = fp_from_usize(0);
        let mut i: usize = 0;
        while i < n
            invariant
                i <= n,
                n == series@.len(),
                acc == residual_sq_sum(self.slope, self.intercept, series@, i as int),
            decreases n - i,
        {
            let pred = fadd(fmul(self.slope, fp_from_usize(i)), self.intercept);
            let d = fsub(pred, series[i]);
            acc = fadd(acc, fmul(d, d));
            i = i + 1;
        }
        fdiv(acc, fp_from_usize(n))
    }

    /// Coefficient of determination `1 - ss_res / ss_tot`, where `ss_tot`
    /// sums `(y_i - mean_y)^2` and `ss_res` sums `(y_i - predicted_i)^2`.
    /// On a constant series `ss_tot` is zero and the quotient `0.0 / 0.0`
    /// makes the result a NaN; that degenerate value is returned as is.
    pub fn r_squared(&self, series: &Vec<u64>) -> (r: u64)
        ensures
            r == spec_r_squared(self.slope, self.intercept, series@),
    {
        let mean_y = mean(series);
        let n = series.len();

        let mut ss_tot: u64 = fp_from_usize(0);
        let mut i: usize = 0;
        while i < n
            invariant
                i <= n,
                n == series@.len(),
                ss_tot == total_sq_sum(series@, mean_y, i as int),
            decreases n - i,
        {
            let d = fsub(series[i], mean_y);
            ss_tot = fadd(ss_tot, fmul(d, d));
            i = i + 1;
        }

        let mut ss_res: u64 = fp_from_usize(0);
        let mut i: usize = 0;
        while i < n
            invariant
                i <= n,
                n == series@.len(),
                ss_res == residual_sq_sum_rev(self.slope, self.intercept, series@, i as int),
            decreases n - i,
        {
            let pred = fadd(fmul(self.slope, fp_from_usize(i)), self.intercept);
            let d = fsub(series[i], pred);
            ss_res = fadd(ss_res, fmul(d, d));
            i = i + 1;
        }

        fsub(fp_from_usize(1), fdiv(ss_res, ss_tot))
    }
}

/// Bit pattern of the model's value at the x-coordinate `x`:
/// `slope * x + intercept`, each operation an IEEE-754 double operation.
pub open spec fn predicted_at(slope: u64, intercept: u64, x: int) -> u64 {
    fadd_bits(fmul_bits(slope, fp_of_int(x)), intercept)
}

/// Running sum of squared in-sample residuals `(predicted_i - y_i)^2`
/// over the first `k` samples, as `mse` forms them.
pub open spec fn residual_sq_sum(slope: u64, intercept: u64, s: Seq<u64>, k: int) -> u64
    decreases k,
{
    if k <= 0 {
        fp_of_int(0)
    } else {
        fadd_bits(
            residual_sq_sum(slope, intercept, s, k - 1),
            (
                {
                    let d = fsub_bits(predicted_at(slope, intercept, k - 1), s[k - 1]);
                    fmul_bits(d, d)
                }
            ),
        )
    }
}

/// Running sum of squared in-sample residuals `(y_i - predicted_i)^2`
/// over the first `k` samples, as `r_squared` forms them (the subtraction
/// runs the other way around than in `mse`; the squares agree in exact
/// arithmetic, but each operation here is pinned to its own IEEE-754
/// evaluation order).
pub open spec fn residual_sq_sum_rev(slope: u64, intercept: u64, s: Seq<u64>, k: int) -> u64
    decreases k,
{
    if k <= 0 {
        fp_of_int(0)
    } else {
        fadd_bits(
            residual_sq_sum_rev(slope, intercept, s, k - 1),
            (
                {
                    let d = fsub_bits(s[k - 1], predicted_at(slope, intercept, k - 1));
                    fmul_bits(d, d)
                }
            ),
        )
    }
}

/// Running sum of squared deviations from the mean `(y_i - mean_y)^2`
/// over the first `k` samples.
pub open spec fn total_sq_sum(s: Seq<u64>, mean_y: u64, k: int) -> u64
    decreases k,
{
    if k <= 0 {
        fp_of_int(0)
    } else {
        fadd_bits(
            total_sq_sum(s, mean_y, k - 1),
            (
                {
                    let d = fsub_bits(s[k - 1], mean_y);
                    fmul_bits(d, d)
                }
            ),
        )
    }
}

/// What `mse` returns for a model and a series with view `s`.
pub open spec fn spec_mse(slope: u64, intercept: u64, s: Seq<u64>) -> u64 {
    fdiv_bits(residual_sq_sum(slope, intercept, s, s.len() as int), fp_of_int(s.len() as int))
}

/// What `r_squared` returns for a model and a series with view `s`:
/// `1.0 - ss_res / ss_tot` over the doubles' own arithmetic.
pub open spec fn spec_r_squared(slope: u64, intercept: u64, s: Seq<u64>) -> u64 {
    fsub_bits(
        fp_of_int(1),
        fdiv_bits(
            residual_sq_sum_rev(slope, intercept, s, s.len() as int),
            total_sq_sum(s, fmean(s), s.len() as int),
        ),
    )
}

} // verus!
