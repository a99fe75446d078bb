//! The population data model and the two evolutionary operations on it:
//! fitness evaluation with score caching, and the elitist generational step.

use vstd::multiset::Multiset;
use vstd::prelude::*;

use crate::gene::Chromosome;
use crate::gene::Gene;
use crate::rng::GaRng;
use crate::select::cumulative_weights;
use crate::select::lemma_sum_scores_bound;
use crate::select::lemma_sum_scores_take_step;
use crate::select::select_parents;
use crate::select::sum_scores;
use crate::select::weights;

verus! {

broadcast use
    vstd::seq_lib::group_to_multiset_ensures,
    vstd::multiset::group_multiset_axioms,
;

/// Numerator and denominator of the crossover probability: each parent
/// pairing invokes the supplied crossover operator with probability 1/2,
/// and otherwise clones the parents' genes verbatim.
pub const CROSSOVER_PROB_NUM: u128 = 1;

/// See `CROSSOVER_PROB_NUM`.
pub const CROSSOVER_PROB_DEN: u128 = 2;

/// A contract violation that the generational step reports rather than
/// hiding: selection over a population whose scores sum to zero would be
/// a draw from an empty range.
#[derive(Debug, PartialEq, Eq, Structural)]
pub enum GaError {
    /// Parents were needed but every chromosome's score is zero, so the
    /// roulette wheel has no sectors to draw from.
    ZeroScoreSum,
}

/// The chromosomes are ordered by nonincreasing cached score.
pub open spec fn sorted_desc<T: Gene>(s: Seq<Chromosome<T>>) -> bool {
    forall|i: int, j: int| 0 <= i <= j < s.len() ==> s[i].score >= s[j].score
}

/// `after` is `before` with exactly the unevaluated chromosomes (cached
/// score zero) rescored by `eval`: genes never change, nonzero scores are
/// kept, and a zero score is replaced by an output of `eval` on that
/// chromosome.
pub open spec fn rescored<T: Gene, F: Fn(&Chromosome<T>) -> u64>(
    eval: F,
    before: Seq<Chromosome<T>>,
    after: Seq<Chromosome<T>>,
) -> bool {
    &&& after.len() == before.len()
    &&& forall|i: int|
        0 <= i < before.len() ==> (#[trigger] after[i]).genes@ == before[i].genes@
    &&& forall|i: int|
        0 <= i < before.len() && before[i].score != 0 ==> (#[trigger] after[i]).score
            == before[i].score
    &&& forall|i: int|
        0 <= i < before.len() && before[i].score == 0 ==> call_ensures(
            eval,
            (&before[i],),
            (#[trigger] after[i]).score,
        )
}

/// The gene counts `la` and `lb` are possible for the two children of
/// parents `p1` and `p2` under crossover operator `f`: either some output
/// of `f` on the parents has them, or they are the parents' own gene
/// counts (the pairing that clones instead of crossing).
pub open spec fn offspring_lens<
    T: Gene,
    F: Fn(&Chromosome<T>, &Chromosome<T>) -> (Chromosome<T>, Chromosome<T>),
>(f: F, p1: Chromosome<T>, p2: Chromosome<T>, la: int, lb: int) -> bool {
    ||| exists|c: (Chromosome<T>, Chromosome<T>)|
        #[trigger] call_ensures(f, (&p1, &p2), c) && la == c.0.genes@.len() && lb
            == c.1.genes@.len()
    ||| (la == p1.genes@.len() && lb == p2.genes@.len())
}

/// `a` and `b` hold exactly the genes of one pairing's outcome on
/// parents `p1` and `p2`: either some output of the crossover operator
/// `f` on the parents, or verbatim copies of the parents' own genes (the
/// pairing that clones instead of crossing).
pub open spec fn bred_from<
    T: Gene,
    F: Fn(&Chromosome<T>, &Chromosome<T>) -> (Chromosome<T>, Chromosome<T>),
>(f: F, p1: Chromosome<T>, p2: Chromosome<T>, a: Chromosome<T>, b: Chromosome<T>) -> bool {
    ||| exists|c: (Chromosome<T>, Chromosome<T>)|
        #[trigger] call_ensures(f, (&p1, &p2), c) && a.genes@ == c.0.genes@ && b.genes@
            == c.1.genes@
    ||| (a.genes@ == p1.genes@ && b.genes@ == p2.genes@)
}

/// `a` and `b` are a child pair bred from `pop`: both parents are members
/// of `pop` with positive score (a zero-score chromosome is never
/// selected), and the children's gene counts come from crossing or
/// cloning those parents.
pub open spec fn child_pair<
    T: Gene,
    F: Fn(&Chromosome<T>, &Chromosome<T>) -> (Chromosome<T>, Chromosome<T>),
>(f: F, pop: Seq<Chromosome<T>>, a: Chromosome<T>, b: Chromosome<T>) -> bool {
    exists|i: int, j: int|
        0 <= i < pop.len() && 0 <= j < pop.len() && (#[trigger] pop[i]).score > 0 && (
        #[trigger] pop[j]).score > 0 && offspring_lens(
            f,
            pop[i],
            pop[j],
            a.genes@.len() as int,
            b.genes@.len() as int,
        )
}

/// An ordered collection of chromosomes together with a cached sum of
/// their scores. After `fittness` the chromosomes are sorted by
/// nonincreasing score and the cache equals their sum; `next_gen` leaves
/// the cache stale until the next evaluation.
pub struct Population<T: Gene> {
    pub chromosomes: Vec<Chromosome<T>>,
    pub score_sum: u128,
}

impl<T: Gene> Population<T> {
    /// An empty population with a zero score sum.
    pub fn new() -> (p: Population<T>)
        ensures
            p.chromosomes@.len() == 0,
            p.score_sum == 0,
    {
        Population { chromosomes: Vec::new(), score_sum: 0 }
    }

    /// Fitness evaluation. Every chromosome whose cached score is exactly
    /// zero is scored by `eval` (a chromosome with a nonzero cache is
    /// skipped: it counts as already evaluated); then the score sum is
    /// recomputed over all chromosomes and the collection is sorted by
    /// nonincreasing score. An empty population is left empty with a zero
    /// sum and no error.
    pub fn fittness<F: Fn(&Chromosome<T>) -> u64>(&mut self, eval: F)
        requires
            forall|i: int|
                0 <= i < old(self).chromosomes@.len() ==> call_requires(
                    eval,
                    (&(#[trigger] old(self).chromosomes@[i]),),
                ),
        ensures
            final(self).chromosomes@.len() == old(self).chromosomes@.len(),
            exists|mid: Seq<Chromosome<T>>|
                #[trigger] rescored(eval, old(self).chromosomes@, mid)
                    && final(self).chromosomes@.to_multiset() == mid.to_multiset(),
            sorted_desc(final(self).chromosomes@),
            final(self).score_sum == sum_scores(final(self).chromosomes@),
    {
        let ghost orig: Seq<Chromosome<T>> = self.chromosomes@;
        let mut work: Vec<Chromosome<T>> = Vec::new();
        core::mem::swap(&mut self.chromosomes, &mut work);
        let mut scored: Vec<Chromosome<T>> = Vec::new();
        while work.len() > 0
            invariant
                orig == old(self).chromosomes@,
                scored@.len() + work@.len() == orig.len(),
                work@ == orig.skip(scored@.len() as int),
                rescored(eval, orig.take(scored@.len() as int), scored@),
                forall|i: int|
                    0 <= i < orig.len() ==> call_requires(eval, (&(#[trigger] orig[i]),)),
            decreases work@.len(),
        {
            let ghost k = scored@.len() as int;
            let ghost work0 = work@;
            let mut c = work.remove(0);
            proof {
                assert(c == orig[k]);
                assert(work@ =~= orig.skip(k + 1)) by {
                    assert(work@ =~= work0.remove(0));
                }
            }
            if c.score == 0 {
                let s = eval(&c);
                c.score = s;
            }
            scored.push(c);
            proof {
                assert(orig.take(k + 1).drop_last() =~= orig.take(k));
                assert(rescored(eval, orig.take(k + 1), scored@)) by {
                    assert(forall|i: int|
                        0 <= i < k ==> (#[trigger] scored@[i]) == scored@.drop_last()[i]);
                    assert(forall|i: int|
                        0 <= i <= k ==> (#[trigger] orig.take(k + 1)[i]) == orig[i]);
                }
            }
        }
        proof {
            assert(orig.take(orig.len() as int) =~= orig);
        }
        let ghost mid = scored@;
        let sorted = sort_desc(scored);
        self.chromosomes = sorted;
        let mut sum: u128 = 0;
        let mut i: usize = 0;
        while i < self.chromosomes.len()
            invariant
                i <= self.chromosomes@.len(),
                sum == sum_scores(self.chromosomes@.take(i as int)),
            decreases self.chromosomes@.len() - i,
        {
            let score = self.chromosomes[i].score;
            proof {
                lemma_sum_scores_bound(self.chromosomes@.take(i as int));
                assert(sum + score <= u128::MAX) by (nonlinear_arith)
                    requires
                        sum <= (i as int) * (u64::MAX as int),
                        i as int <= usize::MAX as int,
                        usize::MAX as int <= u64::MAX as int,
                        score <= u64::MAX,
                ;
                lemma_sum_scores_take_step(self.chromosomes@, i as int);
            }
            sum = sum + (score as u128);
            i += 1;
        }
        proof {
            assert(self.chromosomes@.take(self.chromosomes@.len() as int) =~= self.chromosomes@);
        }
        self.score_sum = sum;
        proof {
            assert(rescored(eval, old(self).chromosomes@, mid));
        }
    }
}

/// The index of a chromosome of maximal score.
fn max_score_index<T: Gene>(v: &Vec<Chromosome<T>>) -> (m: usize)
    requires
        v@.len() > 0,
    ensures
        m < v@.len(),
        forall|k: int| 0 <= k < v@.len() ==> (#[trigger] v@[k]).score <= v@[m as int].score,
{
    let mut m: usize = 0;
    let mut i: usize = 1;
    while i < v.len()
        invariant
            m < i <= v@.len(),
            forall|k: int| 0 <= k < i ==> (#[trigger] v@[k]).score <= v@[m as int].score,
        decreases v@.len() - i,
    {
        if v[i].score > v[m].score {
            m = i;
        }
        i += 1;
    }
    m
}

/// Sorts chromosomes by nonincreasing cached score; the result holds
/// exactly the same chromosomes (as a multiset). Ties resolve in an
/// arbitrary order; the integer scores make every pair comparable.
fn sort_desc<T: Gene>(v: Vec<Chromosome<T>>) -> (r: Vec<Chromosome<T>>)
    ensures
        r@.len() == v@.len(),
        r@.to_multiset() == v@.to_multiset(),
        sorted_desc(r@),
{
    let mut rest = v;
    let mut out: Vec<Chromosome<T>> = Vec::new();
    proof {
        assert(out@.to_multiset().add(rest@.to_multiset()) =~= rest@.to_multiset());
    }
    let ghost all = rest@;
    while rest.len() > 0
        invariant
            out@.len() + rest@.len() == all.len(),
            out@.to_multiset().add(rest@.to_multiset()) == all.to_multiset(),
            sorted_desc(out@),
            forall|a: int, b: int|
                0 <= a < out@.len() && 0 <= b < rest@.len() ==> (#[trigger] out@[a]).score >= (
                #[trigger] rest@[b]).score,
        decreases rest@.len(),
    {
        let m = max_score_index(&rest);
        let ghost rest0 = rest@;
        let ghost out0 = out@;
        let c = rest.remove(m);
        out.push(c);
        proof {
            assert(rest0[m as int] == c);
            assert(rest0.contains(c));
            assert(out@.to_multiset() =~= out0.to_multiset().insert(c));
            assert(rest@.to_multiset() =~= rest0.to_multiset().remove(c));
            assert(out@.to_multiset().add(rest@.to_multiset()) =~= all.to_multiset()) by {
                assert(rest0.to_multiset().count(c) > 0);
                assert(forall|x: Chromosome<T>|
                    #![all_triggers]
                    out@.to_multiset().add(rest@.to_multiset()).count(x) == out0.to_multiset().add(
                        rest0.to_multiset(),
                    ).count(x));
            }
            assert(forall|b: int|
                0 <= b < rest@.len() ==> (#[trigger] rest@[b]) == if b < m {
                    rest0[b]
                } else {
                    rest0[b + 1]
                });
        }
    }
    proof {
        assert(rest@.to_multiset() =~= Multiset::empty());
        assert(out@.to_multiset().add(Multiset::<Chromosome<T>>::empty()) =~= out@.to_multiset());
    }
    out
}

/// One pairing's two children. With probability `CROSSOVER_PROB_NUM /
/// CROSSOVER_PROB_DEN` the supplied crossover operator is invoked on the
/// parents; otherwise both parents' genes are cloned verbatim. Either
/// way the children are fresh: their cached scores are zero, so the next
/// evaluation scores them.
pub fn gen_children<
    T: Gene,
    F: Fn(&Chromosome<T>, &Chromosome<T>) -> (Chromosome<T>, Chromosome<T>),
>(rng: &mut GaRng, parent_1: &Chromosome<T>, parent_2: &Chromosome<T>, f: &F) -> (children: (
    Chromosome<T>,
    Chromosome<T>,
))
    requires
        call_requires(*f, (parent_1, parent_2)),
    ensures
        children.0.score == 0,
        children.1.score == 0,
        bred_from(*f, *parent_1, *parent_2, children.0, children.1),
        offspring_lens(
            *f,
            *parent_1,
            *parent_2,
            children.0.genes@.len() as int,
            children.1.genes@.len() as int,
        ),
{
    if rng.below(CROSSOVER_PROB_DEN) < CROSSOVER_PROB_NUM {
        let (a, b) = f(parent_1, parent_2);
        let child_1 = Chromosome { genes: a.genes, score: 0 };
        let child_2 = Chromosome { genes: b.genes, score: 0 };
        (child_1, child_2)
    } else {
        let mut a = parent_1.duplicate();
        let mut b = parent_2.duplicate();
        a.score = 0;
        b.score = 0;
        (a, b)
    }
}

impl<T: Gene> Population<T> {
    /// The generational step: the two top-scoring chromosomes (the
    /// population must already be evaluated and sorted) are carried over
    /// unchanged as the first two entries of the next generation, and
    /// `(size - 2) / 2` pairings — parents drawn independently, with
    /// replacement, in proportion to their scores — each contribute two
    /// freshly built children, crossed or cloned and then mutated. The
    /// population size must be even and at least two. When parents are
    /// needed but every score is zero, the step changes nothing and
    /// reports `ZeroScoreSum`; the score-sum cache is otherwise left as
    /// it was, stale until the next evaluation.
    pub fn next_gen<F: Fn(&Chromosome<T>, &Chromosome<T>) -> (Chromosome<T>, Chromosome<T>)>(
        &mut self,
        rng: &mut GaRng,
        cross_over: F,
    ) -> (res: Result<(), GaError>)
        requires
            old(self).chromosomes@.len() >= 2,
            old(self).chromosomes@.len() % 2 == 0,
            forall|i: int, j: int|
                #![trigger old(self).chromosomes@[i], old(self).chromosomes@[j]]
                0 <= i < old(self).chromosomes@.len() && 0 <= j < old(self).chromosomes@.len()
                    ==> call_requires(
                    cross_over,
                    (&old(self).chromosomes@[i], &old(self).chromosomes@[j]),
                ),
        ensures
            final(self).score_sum == old(self).score_sum,
            match res {
                Ok(_) => {
                    &&& final(self).chromosomes@.len() == old(self).chromosomes@.len()
                    &&& final(self).chromosomes@[0].genes@ == old(self).chromosomes@[0].genes@
                    &&& final(self).chromosomes@[0].score == old(self).chromosomes@[0].score
                    &&& final(self).chromosomes@[1].genes@ == old(self).chromosomes@[1].genes@
                    &&& final(self).chromosomes@[1].score == old(self).chromosomes@[1].score
                    &&& forall|k: int|
                        2 <= k < final(self).chromosomes@.len()
                            ==> (#[trigger] final(self).chromosomes@[k]).score == 0
                    &&& forall|k: int|
                        2 <= k < final(self).chromosomes@.len() && k % 2 == 0 ==> child_pair(
                            cross_over,
                            old(self).chromosomes@,
                            #[trigger] final(self).chromosomes@[k],
                            final(self).chromosomes@[k + 1],
                        )
                    &&& (old(self).chromosomes@.len() > 2 ==> sum_scores(old(self).chromosomes@)
                        > 0)
                },
                Err(e) => {
                    &&& e == GaError::ZeroScoreSum
                    &&& *final(self) == *old(self)
                    &&& old(self).chromosomes@.len() > 2
                    &&& sum_scores(old(self).chromosomes@) == 0
                },
            },
    {
        let size = self.chromosomes.len();
        let w = weights(&self.chromosomes);
        let total = w[w.len() - 1];
        if total == 0 && size > 2 {
            return Err(GaError::ZeroScoreSum);
        }
        let ghost orig: Seq<Chromosome<T>> = self.chromosomes@;
        let pairs = (size - 2) / 2;
        let mut next: Vec<Chromosome<T>> = Vec::new();
        next.push(self.chromosomes[0].duplicate());
        next.push(self.chromosomes[1].duplicate());
        let mut p: usize = 0;
        while p < pairs
            invariant
                orig == self.chromosomes@,
                orig == old(self).chromosomes@,
                orig.len() == size,
                size >= 2,
                pairs == (size - 2) / 2,
                cumulative_weights(orig, w@),
                crate::select::nondecreasing(w@),
                w@.last() == sum_scores(orig),
                pairs > 0 ==> w@.last() > 0,
                p <= pairs,
                next@.len() == 2 + 2 * (p as int),
                next@[0].genes@ == orig[0].genes@,
                next@[0].score == orig[0].score,
                next@[1].genes@ == orig[1].genes@,
                next@[1].score == orig[1].score,
                forall|k: int| 2 <= k < next@.len() ==> (#[trigger] next@[k]).score == 0,
                forall|k: int|
                    2 <= k < next@.len() && k % 2 == 0 ==> child_pair(
                        cross_over,
                        orig,
                        #[trigger] next@[k],
                        next@[k + 1],
                    ),
                forall|i: int, j: int|
                    #![trigger orig[i], orig[j]]
                    0 <= i < orig.len() && 0 <= j < orig.len() ==> call_requires(
                        cross_over,
                        (&orig[i], &orig[j]),
                    ),
            decreases pairs - p,
        {
            let (i1, i2) = select_parents(rng, &w);
            proof {
                assert(w@[i1 as int + 1] == w@[i1 as int] + orig[i1 as int].score);
                assert(w@[i2 as int + 1] == w@[i2 as int] + orig[i2 as int].score);
            }
            let (mut c1, mut c2) = gen_children(
                rng,
                &self.chromosomes[i1],
                &self.chromosomes[i2],
                &cross_over,
            );
            c1.mutate(rng);
            c2.mutate(rng);
            let ghost next0 = next@;
            next.push(c1);
            next.push(c2);
            p += 1;
            proof {
                let ghost l = next0.len() as int;
                assert(child_pair(cross_over, orig, next@[l], next@[l + 1])) by {
                    assert(orig[i1 as int].score > 0);
                    assert(orig[i2 as int].score > 0);
                    assert(offspring_lens(
                        cross_over,
                        orig[i1 as int],
                        orig[i2 as int],
                        next@[l].genes@.len() as int,
                        next@[l + 1].genes@.len() as int,
                    ));
                }
            }
        }
        proof {
            assert(2 + 2 * ((size - 2) as int / 2) == size);
        }
        self.chromosomes = next;
        Ok(())
    }
}

} // verus!
