use vstd::prelude::*;

verus! {

/// The sum of every sample in `samples`, as a mathematical integer.
pub open spec fn total(samples: Seq<u128>) -> nat
    decreases samples.len(),
{
    if samples.len() == 0 {
        0
    } else {
        total(samples.drop_last()) + samples.last() as nat
    }
}

/// `m` is the smallest sample: it occurs in `samples` and none is below it.
pub open spec fn is_minimum(samples: Seq<u128>, m: nat) -> bool {
    &&& exists|i: int| 0 <= i < samples.len() && #[trigger] samples[i] == m
    &&& forall|i: int| 0 <= i < samples.len() ==> m <= #[trigger] samples[i]
}

/// `m` is the largest sample: it occurs in `samples` and none is above it.
pub open spec fn is_maximum(samples: Seq<u128>, m: nat) -> bool {
    &&& exists|i: int| 0 <= i < samples.len() && #[trigger] samples[i] == m
    &&& forall|i: int| 0 <= i < samples.len() ==> #[trigger] samples[i] <= m
}

/// The mathematical content of a statistics record.
///
/// The mean is not stored as a rounded number: it is the exact fraction
/// `total / count`, and every statement about it is made over that fraction.
pub struct Summary {
    /// How many samples were summarised.
    pub count: nat,
    /// The smallest sample.
    pub min: nat,
    /// The largest sample, the observed worst case.
    pub max: nat,
    /// The sum of all samples; the mean is `total / count`.
    pub total: nat,
    /// The spread between the worst and the best case.
    pub jitter: nat,
}

impl Summary {
    /// This summary is the reduction of `samples`.
    pub open spec fn summarizes(self, samples: Seq<u128>) -> bool {
        &&& self.count == samples.len()
        &&& is_minimum(samples, self.min)
        &&& is_maximum(samples, self.max)
        &&& self.total == total(samples)
        &&& self.jitter == self.max - self.min
    }

    /// What every summary of at least one sample satisfies: the extremes are
    /// ordered, the mean lies between them, and the jitter is their distance.
    pub open spec fn well_formed(self) -> bool {
        &&& self.count > 0
        &&& self.min <= self.max
        &&& self.min * self.count <= self.total <= self.max * self.count
        &&& self.jitter == self.max - self.min
    }

    /// The mean with its fractional part cut off.
    pub open spec fn mean_floor(self) -> nat {
        self.total / self.count
    }

    /// A hundred times the mean, rounded to the nearest integer, halves upwards.
    pub open spec fn mean_hundredths(self) -> nat {
        (200 * self.total + self.count) / (2 * self.count)
    }
}

/// Every non-empty sample sequence has a summary.
pub proof fn lemma_summary_exists(samples: Seq<u128>)
    requires
        samples.len() > 0,
    ensures
        exists|s: Summary| s.summarizes(samples),
    decreases samples.len(),
{
    let last = samples.last() as nat;
    let rest = samples.drop_last();
    if samples.len() == 1 {
        let s = Summary { count: 1, min: last, max: last, total: last, jitter: 0 };
        assert(total(rest) == 0);
        assert(s.summarizes(samples));
    } else {
        lemma_summary_exists(rest);
        let r = choose|r: Summary| r.summarizes(rest);
        let lo = if last < r.min { last } else { r.min };
        let hi = if last > r.max { last } else { r.max };
        let s = Summary {
            count: samples.len(),
            min: lo,
            max: hi,
            total: r.total + last,
            jitter: (hi - lo) as nat,
        };
        assert forall|k: int| 0 <= k < samples.len() implies lo <= #[trigger] samples[k]
            && samples[k] <= hi by {
            if k < rest.len() {
                assert(samples[k] == rest[k]);
            }
        }
        assert(s.summarizes(samples));
    }
}

/// Reduction is deterministic: a sample sequence has at most one summary.
pub proof fn lemma_summary_is_unique(samples: Seq<u128>, a: Summary, b: Summary)
    requires
        a.summarizes(samples),
        b.summarizes(samples),
    ensures
        a == b,
{
}

/// The mean of a sample sequence lies between its smallest and its largest
/// sample, and the smallest is not above the largest.
///
/// The mean is the fraction `total(samples) / samples.len()`; the comparison is
/// stated with both sides multiplied by the number of samples.
pub proof fn lemma_mean_within_extremes(samples: Seq<u128>, lo: nat, hi: nat)
    requires
        is_minimum(samples, lo),
        is_maximum(samples, hi),
    ensures
        samples.len() > 0,
        lo <= hi,
        lo * samples.len() <= total(samples) <= hi * samples.len(),
{
    lemma_total_within_bounds(samples, lo, hi);
}

/// Every summary of a sample sequence is well formed: its mean, the fraction
/// `total / count`, lies between its extremes, and its jitter is their
/// distance and not negative.
pub proof fn lemma_summary_is_well_formed(samples: Seq<u128>, s: Summary)
    requires
        s.summarizes(samples),
    ensures
        s.well_formed(),
        s.min * s.count <= s.total <= s.max * s.count,
        s.jitter == s.max - s.min,
        s.max - s.min >= 0,
{
    lemma_mean_within_extremes(samples, s.min, s.max);
}

/// The order of the samples does not matter to their summary: two sequences
/// that hold the same samples equally often have the same summary.
pub proof fn lemma_summary_ignores_order(a: Seq<u128>, b: Seq<u128>, s: Summary)
    requires
        a.to_multiset() == b.to_multiset(),
        s.summarizes(a),
    ensures
        s.summarizes(b),
{
    a.to_multiset_ensures();
    b.to_multiset_ensures();
    lemma_total_ignores_order(a, b);
    let i = choose|i: int| 0 <= i < a.len() && a[i] == s.min;
    let j = choose|j: int| 0 <= j < a.len() && a[j] == s.max;
    assert(b.to_multiset().count(a[i]) > 0 && b.to_multiset().count(a[j]) > 0);
    assert forall|k: int| 0 <= k < b.len() implies s.min <= #[trigger] b[k] && b[k] <= s.max by {
        assert(a.to_multiset().count(b[k]) > 0);
    }
}

/// The sum of a prefix never exceeds the sum of the whole sequence.
pub proof fn lemma_total_of_prefix(samples: Seq<u128>, n: int)
    requires
        0 <= n <= samples.len(),
    ensures
        total(samples.take(n)) <= total(samples),
    decreases samples.len() - n,
{
    if n == samples.len() {
        assert(samples.take(n) =~= samples);
    } else {
        lemma_total_of_prefix(samples, n + 1);
        assert(samples.take(n + 1).drop_last() =~= samples.take(n));
    }
}

/// A sum of `n` numbers that all lie in `lo ..= hi` lies in `lo * n ..= hi * n`.
proof fn lemma_total_within_bounds(samples: Seq<u128>, lo: nat, hi: nat)
    requires
        forall|i: int| 0 <= i < samples.len() ==> lo <= #[trigger] samples[i] && samples[i] <= hi,
    ensures
        lo * samples.len() <= total(samples) <= hi * samples.len(),
    decreases samples.len(),
{
    if samples.len() > 0 {
        let rest = samples.drop_last();
        lemma_total_within_bounds(rest, lo, hi);
        assert(lo * samples.len() == lo * rest.len() + lo) by (nonlinear_arith)
            requires
                samples.len() == rest.len() + 1,
        ;
        assert(hi * samples.len() == hi * rest.len() + hi) by (nonlinear_arith)
            requires
                samples.len() == rest.len() + 1,
        ;
    }
}

/// Taking one sample out lowers the sum by that sample.
proof fn lemma_total_without(samples: Seq<u128>, k: int)
    requires
        0 <= k < samples.len(),
    ensures
        total(samples) == total(samples.remove(k)) + samples[k],
    decreases samples.len(),
{
    if k < samples.len() - 1 {
        let rest = samples.drop_last();
        lemma_total_without(rest, k);
        assert(rest.remove(k) =~= samples.remove(k).drop_last());
    } else {
        assert(samples.remove(k) =~= samples.drop_last());
    }
}

/// The sum depends on which samples there are, not on their order.
proof fn lemma_total_ignores_order(a: Seq<u128>, b: Seq<u128>)
    requires
        a.to_multiset() == b.to_multiset(),
    ensures
        total(a) == total(b),
    decreases a.len(),
{
    a.to_multiset_ensures();
    b.to_multiset_ensures();
    if a.len() > 0 {
        let x = a.last();
        assert(b.to_multiset().count(x) > 0);
        let k = choose|k: int| 0 <= k < b.len() && b[k] == x;
        assert(a.drop_last() =~= a.remove(a.len() - 1));
        lemma_total_ignores_order(a.drop_last(), b.remove(k));
        lemma_total_without(b, k);
    }
}

} // verus!
