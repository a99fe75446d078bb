//! Fitness-proportionate (roulette-wheel) parent selection: a cumulative
//! weight table over the population's scores, and draws against it.

use vstd::prelude::*;

use crate::gene::Chromosome;
use crate::gene::Gene;
use crate::rng::GaRng;

verus! {

/// The sum of the cached scores of a sequence of chromosomes.
pub open spec fn sum_scores<T: Gene>(s: Seq<Chromosome<T>>) -> int
    decreases s.len(),
{
    if s.len() == 0 {
        0
    } else {
        sum_scores(s.drop_last()) + s.last().score
    }
}

/// A score sum is nonnegative and at most one maximal score per chromosome.
pub proof fn lemma_sum_scores_bound<T: Gene>(s: Seq<Chromosome<T>>)
    ensures
        0 <= sum_scores(s) <= s.len() * (u64::MAX as int),
    decreases s.len(),
{
    if s.len() > 0 {
        lemma_sum_scores_bound(s.drop_last());
    }
}

/// Extending a prefix by one chromosome adds that chromosome's score.
pub proof fn lemma_sum_scores_take_step<T: Gene>(s: Seq<Chromosome<T>>, i: int)
    requires
        0 <= i < s.len(),
    ensures
        sum_scores(s.take(i + 1)) == sum_scores(s.take(i)) + s[i].score,
{
    assert(s.take(i + 1).drop_last() =~= s.take(i));
    assert(s.take(i + 1).last() == s[i]);
}

/// `w` is the cumulative weight table of `s`: one more entry than `s`,
/// starting at zero, each step adding the matching chromosome's score.
pub open spec fn cumulative_weights<T: Gene>(s: Seq<Chromosome<T>>, w: Seq<u128>) -> bool {
    &&& w.len() == s.len() + 1
    &&& w[0] == 0
    &&& forall|i: int| 0 <= i < s.len() ==> w[i + 1] == w[i] + s[i].score
}

/// The entries of a weight table never decrease.
pub open spec fn nondecreasing(w: Seq<u128>) -> bool {
    forall|i: int, j: int| 0 <= i <= j < w.len() ==> w[i] <= w[j]
}

proof fn lemma_nondecreasing_range(w: Seq<u128>, i: int, j: int)
    requires
        forall|k: int| 0 <= k && k + 1 < w.len() ==> #[trigger] w[k] <= w[k + 1],
        0 <= i <= j < w.len(),
    ensures
        w[i] <= w[j],
    decreases j - i,
{
    if i < j {
        lemma_nondecreasing_range(w, i, j - 1);
    }
}

/// A cumulative weight table never decreases and ends at the score sum.
pub proof fn lemma_cumulative_weights_facts<T: Gene>(s: Seq<Chromosome<T>>, w: Seq<u128>)
    requires
        cumulative_weights(s, w),
    ensures
        nondecreasing(w),
        w.last() == sum_scores(s),
{
    assert forall|k: int| 0 <= k && k + 1 < w.len() implies #[trigger] w[k] <= w[k + 1] by {
        assert(w[k + 1] == w[k] + s[k].score);
    }
    assert forall|i: int, j: int| 0 <= i <= j < w.len() implies w[i] <= w[j] by {
        lemma_nondecreasing_range(w, i, j);
    }
    lemma_last_weight_is_sum(s, w);
}

proof fn lemma_last_weight_is_sum<T: Gene>(s: Seq<Chromosome<T>>, w: Seq<u128>)
    requires
        cumulative_weights(s, w),
    ensures
        w.last() == sum_scores(s),
    decreases s.len(),
{
    if s.len() > 0 {
        assert(cumulative_weights(s.drop_last(), w.drop_last()));
        lemma_last_weight_is_sum(s.drop_last(), w.drop_last());
        assert(w.drop_last().last() == w[s.len() - 1]);
    }
}

/// Builds the cumulative weight table of the given chromosomes: entry `0`
/// is zero and entry `i + 1` exceeds entry `i` by the score of chromosome
/// `i`, so the final entry is the sum of all scores.
pub fn weights<T: Gene>(chromosomes: &Vec<Chromosome<T>>) -> (w: Vec<u128>)
    ensures
        cumulative_weights(chromosomes@, w@),
        w@.last() == sum_scores(chromosomes@),
        nondecreasing(w@),
{
    let mut w: Vec<u128> = Vec::new();
    let mut sum: u128 = 0;
    w.push(0);
    let mut i: usize = 0;
    while i < chromosomes.len()
        invariant
            i <= chromosomes@.len(),
            w@.len() == i + 1,
            w@[0] == 0,
            forall|k: int| 0 <= k < i ==> w@[k + 1] == w@[k] + chromosomes@[k].score,
            sum == sum_scores(chromosomes@.take(i as int)),
            w@.last() == sum,
        decreases chromosomes@.len() - i,
    {
        let score = chromosomes[i].score;
        proof {
            lemma_sum_scores_bound(chromosomes@.take(i as int));
            assert(sum + score <= u128::MAX) by (nonlinear_arith)
                requires
                    sum <= (i as int) * (u64::MAX as int),
                    i as int <= usize::MAX as int,
                    usize::MAX as int <= u64::MAX as int,
                    score <= u64::MAX,
            ;
            lemma_sum_scores_take_step(chromosomes@, i as int);
        }
        sum = sum + (score as u128);
        w.push(sum);
        i += 1;
    }
    proof {
        assert(chromosomes@.take(chromosomes@.len() as int) =~= chromosomes@);
        lemma_cumulative_weights_facts(chromosomes@, w@);
    }
    w
}

/// Returns the index whose weight interval contains `r`: the largest `idx`
/// with `w[idx] <= r`, which then satisfies `w[idx] <= r < w[idx + 1]`.
/// Every pick from a table with positive total lands in `[0, size)`.
pub fn roulette_pick(w: &Vec<u128>, r: u128) -> (idx: usize)
    requires
        w@.len() >= 2,
        w@[0] == 0,
        nondecreasing(w@),
        r < w@.last(),
    ensures
        idx < w@.len() - 1,
        w@[idx as int] <= r < w@[idx as int + 1],
        forall|k: int| idx < k < w@.len() ==> r < w@[k],
{
    let mut i: usize = w.len() - 2;
    while w[i] > r
        invariant
            w@.len() >= 2,
            w@[0] == 0,
            i < w@.len() - 1,
            r < w@[i as int + 1],
            forall|k: int| i < k < w@.len() ==> r < w@[k],
        decreases i,
    {
        assert(i > 0);
        i -= 1;
    }
    i
}

/// Draws a uniform value below the table's total and picks the matching
/// index: chromosome `idx` is selected with probability proportional to
/// its score, and a zero-score chromosome (`w[idx] == w[idx + 1]`) never.
pub fn roulette_selection(rng: &mut GaRng, w: &Vec<u128>) -> (idx: usize)
    requires
        w@.len() >= 2,
        w@[0] == 0,
        nondecreasing(w@),
        w@.last() > 0,
    ensures
        idx < w@.len() - 1,
        w@[idx as int] < w@[idx as int + 1],
{
    let total = w[w.len() - 1];
    let r = rng.below(total);
    roulette_pick(w, r)
}

/// Draws the two parent indices of one pairing, independently and with
/// replacement: an index may be its own mate. Both point at chromosomes
/// with a positive score.
pub fn select_parents(rng: &mut GaRng, w: &Vec<u128>) -> (p: (usize, usize))
    requires
        w@.len() >= 2,
        w@[0] == 0,
        nondecreasing(w@),
        w@.last() > 0,
    ensures
        p.0 < w@.len() - 1,
        p.1 < w@.len() - 1,
        w@[p.0 as int] < w@[p.0 as int + 1],
        w@[p.1 as int] < w@[p.1 as int + 1],
{
    let index_1 = roulette_selection(rng, w);
    let index_2 = roulette_selection(rng, w);
    (index_1, index_2)
}

} // verus!
