use vstd::prelude::*;

verus! {

/// The sum of the samples.
pub open spec fn sum_of(s: Seq<u64>) -> int
    decreases s.len(),
{
    if s.len() == 0 {
        0
    } else {
        sum_of(s.drop_last()) + s.last()
    }
}

/// The sum of the squares of the samples.
pub open spec fn sum_of_squares(s: Seq<u64>) -> int
    decreases s.len(),
{
    if s.len() == 0 {
        0
    } else {
        sum_of_squares(s.drop_last()) + s.last() * s.last()
    }
}

/// `n` times the sum of squared deviations from the mean, that is
/// `n * sum(x^2) - (sum x)^2`: zero exactly when all samples are equal, and
/// `n^2 (n - 1)` times the squared standard error of the mean.
pub open spec fn scaled_deviation(s: Seq<u64>) -> int {
    s.len() * sum_of_squares(s) - sum_of(s) * sum_of(s)
}

proof fn lemma_sum_bounds(s: Seq<u64>)
    ensures
        0 <= sum_of(s) <= s.len() * (u64::MAX as int),
    decreases s.len(),
{
    if s.len() > 0 {
        lemma_sum_bounds(s.drop_last());
        assert((s.len() - 1) * (u64::MAX as int) + u64::MAX as int == s.len() * (u64::MAX as int))
            by (nonlinear_arith);
    }
}

/// The count, sum, mean and sum of squares of the collected samples.
#[derive(PartialEq, Eq, Structural, Clone, Copy, Debug)]
pub struct SampleSummary {
    pub count: usize,
    pub sum: u128,
    /// The mean, rounded down; 0 where there is no sample.
    pub mean: u64,
    /// The sum of the squared samples; `None` where it exceeds `u128::MAX`.
    pub sum_squares: Option<u128>,
}

/// Reduces the samples to their count, sum, mean and sum of squares, in any
/// order they came.
pub fn summarize(samples: &Vec<u64>) -> (r: SampleSummary)
    ensures
        r.count == samples@.len(),
        r.sum == sum_of(samples@),
        samples@.len() > 0 ==> r.mean == sum_of(samples@) / (samples@.len() as int),
        samples@.len() == 0 ==> r.mean == 0,
        r.sum_squares is Some <==> sum_of_squares(samples@) <= u128::MAX,
        r.sum_squares matches Some(q) ==> q == sum_of_squares(samples@),
{
    let n = samples.len();
    let mut sum: u128 = 0;
    let mut squares: Option<u128> = Some(0);
    let mut i: usize = 0;
    while i < n
        invariant
            n == samples@.len(),
            i <= n,
            sum == sum_of(samples@.subrange(0, i as int)),
            squares matches Some(q) ==> q == sum_of_squares(samples@.subrange(0, i as int)),
            squares is None ==> sum_of_squares(samples@.subrange(0, i as int)) > u128::MAX,
        decreases n - i,
    {
        let x = samples[i] as u128;
        proof {
            let t = samples@.subrange(0, i + 1);
            assert(t.drop_last() == samples@.subrange(0, i as int));
            assert(x * x <= (u64::MAX as int) * (u64::MAX as int)) by (nonlinear_arith)
                requires x <= u64::MAX;
            assert(0 <= x * x) by (nonlinear_arith);
            lemma_sum_bounds(t);
            assert((i + 1) * (u64::MAX as int) <= (u64::MAX as int) * (u64::MAX as int))
                by (nonlinear_arith)
                requires i + 1 <= u64::MAX;
            assert((u64::MAX as int) * (u64::MAX as int) <= u128::MAX);
        }
        sum = sum + x;
        squares = match squares {
            Some(q) => q.checked_add(x * x),
            None => None,
        };
        i = i + 1;
    }
    assert(samples@.subrange(0, n as int) == samples@);
    if n == 0 {
        return SampleSummary { count: 0, sum: 0, mean: 0, sum_squares: squares };
    }
    proof {
        lemma_sum_bounds(samples@);
        assert(sum_of(samples@) / (n as int) <= u64::MAX) by (nonlinear_arith)
            requires
                0 <= sum_of(samples@) <= n * (u64::MAX as int),
                n >= 1,
        ;
    }
    let mean = (sum / (n as u128)) as u64;
    SampleSummary { count: n, sum, mean, sum_squares: squares }
}

/// Samples that are all equal to `v`.
pub open spec fn uniform(s: Seq<u64>, v: u64) -> bool {
    forall|i: int| 0 <= i < s.len() ==> s[i] == v
}

proof fn lemma_uniform_sums(s: Seq<u64>, v: u64)
    requires
        uniform(s, v),
    ensures
        sum_of(s) == s.len() * v,
        sum_of_squares(s) == s.len() * (v * v),
    decreases s.len(),
{
    if s.len() > 0 {
        lemma_uniform_sums(s.drop_last(), v);
        assert((s.len() - 1) * v + v == s.len() * v) by (nonlinear_arith);
        assert((s.len() - 1) * (v * v) + v * v == s.len() * (v * v)) by (nonlinear_arith);
    }
}

/// Samples that are all equal have that value as their mean and no deviation,
/// so their standard error is zero.
pub proof fn uniform_samples_have_exact_mean(s: Seq<u64>, v: u64)
    requires
        s.len() > 0,
        uniform(s, v),
    ensures
        sum_of(s) / (s.len() as int) == v,
        scaled_deviation(s) == 0,
{
    lemma_uniform_sums(s, v);
    let n = s.len() as int;
    assert((n * v) / n == v) by (nonlinear_arith)
        requires n > 0;
    assert(n * (n * (v * v)) - (n * v) * (n * v) == 0) by (nonlinear_arith);
}

} // verus!
