//! The score of a day: points for work done and for going to bed on time.
//!
//! Work earns `actual_work_count * work_sleep_balance / target_work_count`
//! points. A bedtime earns `100 - work_sleep_balance` points when it is on
//! target, and half as many for each half-life of deviation. The score is
//! the sum, rounded to the nearest integer, halves away from zero.
//!
//! Where the deviation is a whole number of half-lives the sleep points are
//! a ratio of integers, and the score is computed here exactly. For another
//! deviation the power of two is irrational; that case is left to the caller.

use crate::record::WorkSleep;
use crate::text::{append_decimal, spec_decimal};
use vstd::arithmetic::div_mod::{
    lemma_basic_div, lemma_div_denominator, lemma_div_pos_is_pos, lemma_hoist_over_denominator,
    lemma_small_div_converse,
};
use vstd::arithmetic::power2::{
    lemma2_to64, lemma_pow2_pos, lemma_pow2_strictly_increases, lemma_pow2_unfold, pow2,
};
use vstd::prelude::*;
use vstd::string::StringExecFns;

verus! {

/// The ratio `num / den`, for `num >= 0` and `den > 0`, rounded to the
/// nearest integer, a half rounded up.
pub open spec fn rounded_quotient(num: int, den: int) -> int {
    (2 * num + den) / (2 * den)
}

impl WorkSleep {
    /// The minutes between the bedtime of the day and its target, where the
    /// day has a bedtime.
    pub open spec fn spec_bedtime_deviation(&self) -> Option<int> {
        match self.actual_bedtime {
            Some(b) => Some(b.spec_abs_diff(&self.goals.target_bedtime)),
            None => None,
        }
    }

    /// The points for work, as numerator and denominator.
    pub open spec fn work_points(&self) -> (int, int) {
        (
            self.actual_work_count * self.goals.work_sleep_balance,
            self.goals.target_work_count as int,
        )
    }

    /// Whether the sleep points are a ratio of integers: the day has no
    /// bedtime, or one that is a whole number of half-lives off target.
    pub open spec fn has_exact_score(&self) -> bool {
        match self.spec_bedtime_deviation() {
            Some(d) => d % (self.goals.bedtime_pts_halflife as int) == 0,
            None => true,
        }
    }

    /// The points for sleep, as numerator and denominator, where they are a
    /// ratio of integers: nothing without a bedtime, else the sleep share of
    /// the 100 points, halved once for each half-life of deviation.
    pub open spec fn sleep_points(&self) -> (int, int) {
        match self.spec_bedtime_deviation() {
            Some(d) => (
                100 - self.goals.work_sleep_balance,
                pow2((d / (self.goals.bedtime_pts_halflife as int)) as nat) as int,
            ),
            None => (0, 1),
        }
    }

    /// The score, where the sleep points are a ratio of integers: the work
    /// points and the sleep points added and rounded.
    pub open spec fn spec_score(&self) -> int {
        let (wn, wd) = self.work_points();
        let (sn, sd) = self.sleep_points();
        rounded_quotient(wn * sd + sn * wd, wd * sd)
    }

    /// The work points as a formula with the day's numbers in it.
    pub open spec fn spec_work_formula(&self) -> Seq<char> {
        spec_decimal(self.actual_work_count as int) + " * "@ + spec_decimal(
            self.goals.work_sleep_balance as int,
        ) + " / "@ + spec_decimal(self.goals.target_work_count as int)
    }

    /// The sleep points as a formula with the numbers of a day in it whose
    /// bedtime is `deviation` minutes off target.
    pub open spec fn spec_sleep_formula(&self, deviation: int) -> Seq<char> {
        "(100 - "@ + spec_decimal(self.goals.work_sleep_balance as int) + ") * (1/2)^("@
            + spec_decimal(deviation) + " / "@ + spec_decimal(
            self.goals.bedtime_pts_halflife as int,
        ) + ")"@
    }

    /// How the score of the day comes about: the formula of the score with
    /// the day's numbers in it, the sleep points only where the day has a
    /// bedtime.
    pub open spec fn spec_score_breakdown(&self) -> Seq<char> {
        match self.spec_bedtime_deviation() {
            Some(d) => "round("@ + self.spec_work_formula() + " + "@ + self.spec_sleep_formula(d)
                + ")"@,
            None => "round("@ + self.spec_work_formula() + ")"@,
        }
    }

    /// How the score of the day comes about, for display: the formula of
    /// the score with the day's numbers in it.
    pub fn score_breakdown(&self) -> (r: String)
        ensures
            r@ == self.spec_score_breakdown(),
    {
        let mut r = String::new();
        r.append("round(");
        append_decimal(&mut r, self.actual_work_count);
        r.append(" * ");
        append_decimal(&mut r, self.goals.work_sleep_balance);
        r.append(" / ");
        append_decimal(&mut r, self.goals.target_work_count);
        match self.bedtime_deviation() {
            Some(d) => {
                r.append(" + ");
                r.append("(100 - ");
                append_decimal(&mut r, self.goals.work_sleep_balance);
                r.append(") * (1/2)^(");
                append_decimal(&mut r, d);
                r.append(" / ");
                append_decimal(&mut r, self.goals.bedtime_pts_halflife);
                r.append(")");
                r.append(")");
            },
            None => {
                r.append(")");
            },
        }
        assert(r@ =~= self.spec_score_breakdown());
        r
    }

    /// The minutes between the bedtime of the day and its target, where the
    /// day has a bedtime.
    pub fn bedtime_deviation(&self) -> (r: Option<i64>)
        ensures
            match r {
                Some(d) => self.spec_bedtime_deviation() == Some(d as int),
                None => self.spec_bedtime_deviation().is_none(),
            },
    {
        match &self.actual_bedtime {
            Some(b) => Some(b.abs_diff(&self.goals.target_bedtime)),
            None => None,
        }
    }

    /// The score of the day, where it can be computed exactly and held:
    /// the day has no bedtime or one that is a whole number of half-lives
    /// off target, and the rounded sum fits the result type.
    pub fn calc_score(&self) -> (r: Option<i64>)
        requires
            self.wf(),
            self.goals.target_work_count > 0,
        ensures
            r == (if self.has_exact_score() && self.spec_score() <= i64::MAX {
                Some(self.spec_score() as i64)
            } else {
                None
            }),
    {
        let target: i128 = self.goals.target_work_count as i128;
        let balance: i128 = self.goals.work_sleep_balance as i128;
        let count: i128 = self.actual_work_count as i128;
        assert(0 <= count * balance <= 100 * 0x7fff_ffff_ffff_ffff) by (nonlinear_arith)
            requires
                0 <= count <= 0x7fff_ffff_ffff_ffff,
                0 <= balance <= 100,
        ;
        let work: i128 = count * balance;
        // Twice the work points plus a half, over twice the target.
        let doubled: i128 = 2 * work + target;
        let (sleep, halvings): (i128, i64) = match self.bedtime_deviation() {
            Some(d) => {
                if d % self.goals.bedtime_pts_halflife != 0 {
                    return None;
                }
                (100 - balance, d / self.goals.bedtime_pts_halflife)
            },
            None => (0, 0),
        };
        assert(0 <= sleep * target <= 100 * 0x7fff_ffff_ffff_ffff) by (nonlinear_arith)
            requires
                0 < target <= 0x7fff_ffff_ffff_ffff,
                0 <= sleep <= 100,
        ;
        let share: i128 = 2 * (sleep * target);
        let mut rest: i128 = share;
        let mut i: i64 = 0;
        proof {
            lemma2_to64();
        }
        while i < halvings && rest > 0
            invariant
                0 <= i <= halvings,
                0 <= rest <= share,
                rest == share as int / pow2(i as nat) as int,
            decreases rest,
        {
            proof {
                lemma_pow2_pos(i as nat);
                lemma_pow2_unfold((i + 1) as nat);
                lemma_div_denominator(share as int, pow2(i as nat) as int, 2);
                assert(pow2(i as nat) * 2 == 2 * pow2(i as nat)) by (nonlinear_arith);
            }
            rest = rest / 2;
            i = i + 1;
        }
        proof {
            let e = pow2(halvings as nat) as int;
            lemma_pow2_pos(halvings as nat);
            if i < halvings {
                lemma_pow2_pos(i as nat);
                lemma_small_div_converse(share as int, pow2(i as nat) as int);
                lemma_pow2_strictly_increases(i as nat, halvings as nat);
                lemma_basic_div(share as int, e);
            }
            assert(rest == share as int / e);
            lemma_score_split(doubled as int, share as int, 2 * target as int, e);
            let (wn, wd) = self.work_points();
            let (sn, sd) = self.sleep_points();
            assert(sd == e);
            assert(sn == sleep);
            assert(2 * (wn * sd + sn * wd) + wd * sd == doubled * e + share) by (nonlinear_arith)
                requires
                    doubled == 2 * wn + wd,
                    share == 2 * (sn * wd),
                    sd == e,
            ;
            assert(2 * (wd * sd) == (2 * wd) * e) by (nonlinear_arith)
                requires
                    sd == e,
            ;
            assert(self.spec_score() == (doubled + rest) / (2 * target as int));
            lemma_div_pos_is_pos(doubled + rest, 2 * target as int);
        }
        let score: i128 = (doubled + rest) / (2 * target);
        if score <= i64::MAX as i128 {
            Some(score as i64)
        } else {
            None
        }
    }
}

/// Dividing `a * e + b` by `d * e` is dividing `a` plus the whole part of
/// `b / e` by `d`.
proof fn lemma_score_split(a: int, b: int, d: int, e: int)
    requires
        0 <= a,
        0 <= b,
        0 < d,
        0 < e,
    ensures
        (a * e + b) / (d * e) == (a + b / e) / d,
{
    assert(0 <= a * e) by (nonlinear_arith)
        requires
            0 <= a,
            0 < e,
    ;
    lemma_div_denominator(a * e + b, e, d);
    lemma_hoist_over_denominator(b, a, e as nat);
    assert(e * d == d * e) by (nonlinear_arith);
}

/// A day without a bedtime gets no sleep points: its score is the work
/// points, rounded.
pub proof fn lemma_score_without_bedtime(day: WorkSleep)
    requires
        day.actual_bedtime.is_none(),
    ensures
        day.has_exact_score(),
        day.sleep_points() == (0int, 1int),
        day.spec_score() == rounded_quotient(
            day.actual_work_count * day.goals.work_sleep_balance,
            day.goals.target_work_count as int,
        ),
{
    let (wn, wd) = day.work_points();
    assert(wn * 1 + 0 * wd == wn && wd * 1 == wd) by (nonlinear_arith);
}

/// A bedtime exactly on target earns all the sleep points.
pub proof fn lemma_sleep_points_on_target(day: WorkSleep)
    requires
        day.spec_bedtime_deviation() == Some(0int),
        day.goals.bedtime_pts_halflife > 0,
    ensures
        day.has_exact_score(),
        day.sleep_points() == (100 - day.goals.work_sleep_balance, 1int),
{
    lemma2_to64();
}

/// A bedtime one half-life off target earns half the sleep points.
pub proof fn lemma_sleep_points_one_halflife(day: WorkSleep)
    requires
        day.spec_bedtime_deviation() == Some(day.goals.bedtime_pts_halflife as int),
        day.goals.bedtime_pts_halflife > 0,
    ensures
        day.has_exact_score(),
        day.sleep_points() == (100 - day.goals.work_sleep_balance, 2int),
{
    lemma2_to64();
    let h = day.goals.bedtime_pts_halflife as int;
    assert(h % h == 0 && h / h == 1) by (nonlinear_arith)
        requires
            h > 0,
    ;
}

/// Each further half-life of deviation halves the sleep points: of two days
/// with the same goals whose bedtimes are a whole number of half-lives off
/// target, the second one half-life more than the first, the second has the
/// same numerator over twice the denominator.
pub proof fn lemma_sleep_points_halve(first: WorkSleep, second: WorkSleep)
    requires
        first.goals == second.goals,
        first.goals.bedtime_pts_halflife > 0,
        first.has_exact_score(),
        first.spec_bedtime_deviation() matches Some(d) && second.spec_bedtime_deviation()
            == Some(d + first.goals.bedtime_pts_halflife),
    ensures
        second.has_exact_score(),
        second.sleep_points() == (first.sleep_points().0, 2 * first.sleep_points().1),
{
    let h = first.goals.bedtime_pts_halflife as int;
    let d = first.spec_bedtime_deviation()->0;
    assert(d >= 0);
    assert((d + h) % h == 0 && (d + h) / h == d / h + 1 && d / h >= 0) by (nonlinear_arith)
        requires
            h > 0,
            d >= 0,
            d % h == 0,
    ;
    lemma_pow2_unfold((d / h + 1) as nat);
}

} // verus!
