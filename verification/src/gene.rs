//! The gene capability and the chromosome data model.

use vstd::prelude::*;

use crate::rng::GaRng;

verus! {

/// Numerator and denominator of the per-gene mutation probability: each
/// gene position mutates independently with probability 1/10.
pub const MUTATION_PROB_NUM: u128 = 1;

/// See `MUTATION_PROB_NUM`.
pub const MUTATION_PROB_DEN: u128 = 10;

/// A candidate solution's smallest mutable unit. Any type used as a
/// chromosome element must be able to perturb itself in place and to
/// duplicate itself; the engine never inspects a gene's internals.
pub trait Gene: Sized {
    /// Alters the gene's internal value according to domain-specific rules.
    /// The engine places no constraint on the magnitude of the change.
    fn mutate(&mut self);

    /// Duplicates the gene; the duplicate equals the original.
    fn clone_gene(&self) -> (r: Self)
        ensures
            r == *self,
    ;
}

/// A ready-made gene holding one integer: mutation steps the value by
/// one, wrapping at the maximum. It serves engine runs that need no
/// domain-specific gene, and witnesses the `Gene` contract with a
/// verified implementation.
#[derive(Clone, Copy, Debug, PartialEq, Eq, Structural)]
pub struct StepGene {
    pub value: u64,
}

impl Gene for StepGene {
    fn mutate(&mut self) {
        if self.value == u64::MAX {
            self.value = 0;
        } else {
            self.value = self.value + 1;
        }
    }

    fn clone_gene(&self) -> (r: Self)
        ensures
            r == *self,
    {
        StepGene { value: self.value }
    }
}

/// One candidate solution: an ordered sequence of genes together with a
/// cached fitness score. A score of `0` means "not yet evaluated"; any
/// nonzero score is the output of the last fitness evaluation. Fitness is
/// a nonnegative fixed-point value whose scale the caller chooses.
pub struct Chromosome<T: Gene> {
    pub genes: Vec<T>,
    pub score: u64,
}

impl<T: Gene> Chromosome<T> {
    /// Duplicates the chromosome, genes and cached score alike.
    pub fn duplicate(&self) -> (r: Self)
        ensures
            r.genes@ == self.genes@,
            r.score == self.score,
    {
        let mut genes: Vec<T> = Vec::new();
        let mut i: usize = 0;
        while i < self.genes.len()
            invariant
                i <= self.genes@.len(),
                genes@.len() == i as int,
                forall|k: int| 0 <= k < i ==> genes@[k] == self.genes@[k],
            decreases self.genes@.len() - i,
        {
            genes.push(self.genes[i].clone_gene());
            i += 1;
        }
        proof {
            assert(genes@ =~= self.genes@);
        }
        Chromosome { genes, score: self.score }
    }

    /// Walks the gene sequence once; each position, independently and with
    /// probability `MUTATION_PROB_NUM / MUTATION_PROB_DEN`, has its gene's
    /// own `mutate` capability invoked in place, and is otherwise left
    /// untouched. The gene count and the cached score never change.
    pub fn mutate(&mut self, rng: &mut GaRng)
        ensures
            final(self).genes@.len() == old(self).genes@.len(),
            final(self).score == old(self).score,
    {
        let mut i: usize = 0;
        while i < self.genes.len()
            invariant
                i <= self.genes@.len(),
                self.genes@.len() == old(self).genes@.len(),
                self.score == old(self).score,
            decreases self.genes@.len() - i,
        {
            if rng.below(MUTATION_PROB_DEN) < MUTATION_PROB_NUM {
                let mut g = self.genes.remove(i);
                g.mutate();
                self.genes.insert(i, g);
            }
            i += 1;
        }
    }
}

} // verus!
