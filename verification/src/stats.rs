use crate::error::HarnessError;
use crate::summary::is_maximum;
use crate::summary::is_minimum;
use crate::summary::lemma_mean_within_extremes;
use crate::summary::lemma_total_of_prefix;
use crate::summary::total;
use crate::summary::Summary;
use vstd::prelude::*;

verus! {

/// The summary of one non-empty sample sequence: how many samples there were,
/// the best and the worst case, their spread, and the exact mean.
///
/// A record cannot be built by hand and never changes once it exists, so every
/// record is well formed: `min <= mean <= max` and `jitter == max - min`.
#[derive(Debug, Clone, Copy, PartialEq, Eq, Structural)]
pub struct StatisticsRecord {
    count: usize,
    min: u128,
    max: u128,
    total: u128,
    jitter: u128,
}

impl View for StatisticsRecord {
    type V = Summary;

    closed spec fn view(&self) -> Summary {
        Summary {
            count: self.count as nat,
            min: self.min as nat,
            max: self.max as nat,
            total: self.total as nat,
            jitter: self.jitter as nat,
        }
    }
}

/// Reduces a sample sequence to its statistics record.
///
/// An empty sequence has no minimum and no maximum, so it is rejected with
/// `EmptySampleSet` instead of being reported as a run of zero latency. A
/// sequence whose sum does not fit the 128-bit accumulator is rejected with
/// `SumOverflow`; the sum never wraps. Every other sequence yields the one
/// record that summarises it.
pub fn aggregate(samples: &Vec<u128>) -> (outcome: Result<StatisticsRecord, HarnessError>)
    ensures
        (match outcome {
            Ok(record) => {
                &&& samples@.len() > 0
                &&& total(samples@) <= u128::MAX
                &&& record@.summarizes(samples@)
                &&& record@.well_formed()
            },
            Err(e) => if samples@.len() == 0 {
                e == HarnessError::EmptySampleSet
            } else {
                e == HarnessError::SumOverflow && total(samples@) > u128::MAX
            },
        }),
{
    let n = samples.len();
    if n == 0 {
        return Err(HarnessError::EmptySampleSet);
    }
    let mut min: u128 = samples[0];
    let mut max: u128 = samples[0];
    let mut sum: u128 = samples[0];
    let mut i: usize = 1;
    proof {
        assert(samples@.take(1).drop_last() =~= Seq::<u128>::empty());
        assert(total(Seq::<u128>::empty()) == 0);
        assert(samples@.take(1)[0] == samples@[0]);
    }
    while i < n
        invariant
            1 <= i <= n,
            n == samples@.len(),
            is_minimum(samples@.take(i as int), min as nat),
            is_maximum(samples@.take(i as int), max as nat),
            sum == total(samples@.take(i as int)),
        decreases n - i,
    {
        let x = samples[i];
        proof {
            let seen = samples@.take(i as int);
            let next = samples@.take(i + 1);
            assert(next.drop_last() =~= seen);
            assert(next.last() == x);
        }
        if x < min {
            min = x;
        }
        if x > max {
            max = x;
        }
        match sum.checked_add(x) {
            Some(s) => {
                sum = s;
            },
            None => {
                proof {
                    lemma_total_of_prefix(samples@, i + 1);
                }
                return Err(HarnessError::SumOverflow);
            },
        }
        i += 1;
    }
    proof {
        assert(samples@.take(n as int) =~= samples@);
        lemma_mean_within_extremes(samples@, min as nat, max as nat);
    }
    Ok(StatisticsRecord { count: n, min, max, total: sum, jitter: max - min })
}

impl StatisticsRecord {
    #[verifier::type_invariant]
    spec fn inv(self) -> bool {
        self@.well_formed()
    }

    /// How many samples the record summarises; never zero.
    pub fn count(&self) -> (count: usize)
        ensures
            count == self@.count,
            count > 0,
    {
        proof {
            use_type_invariant(self);
        }
        self.count
    }

    /// The smallest sample in nanoseconds, the best case.
    pub fn min(&self) -> (min: u128)
        ensures
            min == self@.min,
            min <= self@.max,
    {
        proof {
            use_type_invariant(self);
        }
        self.min
    }

    /// The largest sample in nanoseconds, the observed worst-case execution
    /// time.
    pub fn max(&self) -> (max: u128)
        ensures
            max == self@.max,
            max >= self@.min,
    {
        proof {
            use_type_invariant(self);
        }
        self.max
    }

    /// The sum of all samples in nanoseconds. Divided by `count` it is the
    /// exact mean, which lies between `min` and `max`.
    pub fn total(&self) -> (total: u128)
        ensures
            total == self@.total,
            self@.min * self@.count <= total <= self@.max * self@.count,
    {
        proof {
            use_type_invariant(self);
        }
        self.total
    }

    /// The distance between the worst and the best case in nanoseconds.
    pub fn jitter(&self) -> (jitter: u128)
        ensures
            jitter == self@.jitter,
            jitter == self@.max - self@.min,
    {
        proof {
            use_type_invariant(self);
        }
        self.jitter
    }

    /// The mean in nanoseconds, rounded down to a whole number.
    pub fn mean_floor(&self) -> (mean: u128)
        ensures
            mean == self@.mean_floor(),
            self@.min <= mean <= self@.max,
    {
        proof {
            use_type_invariant(self);
            lemma_floor_within_bounds(
                self.total as int,
                self.count as int,
                self.min as int,
                self.max as int,
            );
        }
        self.total / (self.count as u128)
    }

    /// The mean in nanoseconds to two decimal places, as its whole part and its
    /// hundredths. The exact mean is rounded to the nearest hundredth, and a
    /// mean that lies halfway between two hundredths is rounded up.
    pub fn mean_hundredths(&self) -> (parts: (u128, u8))
        ensures
            parts.0 == self@.mean_hundredths() / 100,
            parts.1 == self@.mean_hundredths() % 100,
    {
        proof {
            use_type_invariant(self);
            lemma_rounded_mean(self.total as int, self.count as int);
        }
        let count = self.count as u128;
        let whole = self.total / count;
        let rest = self.total % count;
        let fraction = (200 * rest + count) / (2 * count);
        if fraction == 100 {
            (whole + 1, 0)
        } else {
            (whole, fraction as u8)
        }
    }
}

/// A quotient lies between two bounds when the dividend lies between their
/// multiples by the divisor.
proof fn lemma_floor_within_bounds(t: int, c: int, lo: int, hi: int)
    requires
        0 < c,
        lo * c <= t <= hi * c,
    ensures
        lo <= t / c <= hi,
{
    vstd::arithmetic::div_mod::lemma_fundamental_div_mod(t, c);
    vstd::arithmetic::div_mod::lemma_mod_bound(t, c);
    let q = t / c;
    assert(lo <= q) by (nonlinear_arith)
        requires
            0 < c,
            lo * c <= c * q + (t % c),
            0 <= t % c < c,
    ;
    assert(q <= hi) by (nonlinear_arith)
        requires
            0 < c,
            c * q + (t % c) <= hi * c,
            0 <= t % c < c,
    ;
}

/// Rounding `100 * t / c` to the nearest integer splits into a hundred times
/// the whole quotient and the rounded share of the remainder, which is at most
/// a hundred and reaches a hundred only where the quotient can still grow.
proof fn lemma_rounded_mean(t: int, c: int)
    requires
        0 <= t,
        0 < c,
    ensures
        (200 * t + c) / (2 * c) == 100 * (t / c) + (200 * (t % c) + c) / (2 * c),
        0 <= (200 * (t % c) + c) / (2 * c) <= 100,
        (200 * (t % c) + c) / (2 * c) == 100 ==> t / c + 1 <= t,
{
    let q = t / c;
    let r = t % c;
    let d = 2 * c;
    let f = (200 * r + c) / d;
    let g = (200 * r + c) % d;
    vstd::arithmetic::div_mod::lemma_fundamental_div_mod(t, c);
    vstd::arithmetic::div_mod::lemma_mod_bound(t, c);
    vstd::arithmetic::div_mod::lemma_fundamental_div_mod(200 * r + c, d);
    vstd::arithmetic::div_mod::lemma_mod_bound(200 * r + c, d);
    assert(200 * t + c == (100 * q + f) * d + g) by (nonlinear_arith)
        requires
            t == c * q + r,
            200 * r + c == d * f + g,
            d == 2 * c,
    ;
    vstd::arithmetic::div_mod::lemma_fundamental_div_mod_converse_div(
        200 * t + c,
        d,
        100 * q + f,
        g,
    );
    assert(0 <= f <= 100) by (nonlinear_arith)
        requires
            200 * r + c == d * f + g,
            0 <= g < d,
            d == 2 * c,
            0 <= r < c,
    ;
    if f == 100 {
        assert(q + 1 <= t) by (nonlinear_arith)
            requires
                t == c * q + r,
                200 * r + c == d * 100 + g,
                0 <= g,
                d == 2 * c,
                0 < c,
                0 <= q,
                0 <= r,
        ;
    }
}

} // verus!
