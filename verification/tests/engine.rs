use ga_engine::gen_children;
use ga_engine::roulette_pick;
use ga_engine::roulette_selection;
use ga_engine::weights;
use ga_engine::Chromosome;
use ga_engine::GaError;
use ga_engine::GaRng;
use ga_engine::Gene;
use ga_engine::Population;
use ga_engine::StepGene;

fn chrom(x: u64) -> Chromosome<StepGene> {
    Chromosome {
        genes: vec![StepGene { value: x }],
        score: 0,
    }
}

fn first_gene_fitness(c: &Chromosome<StepGene>) -> u64 {
    c.genes[0].value
}

#[test]
fn new_population_is_empty() {
    let p: Population<StepGene> = Population::new();
    assert_eq!(p.chromosomes.len(), 0);
    assert_eq!(p.score_sum, 0);
}

#[test]
fn evaluate_scores_sorts_and_sums() {
    let mut p: Population<StepGene> = Population::new();
    p.chromosomes.push(chrom(1));
    p.chromosomes.push(chrom(2));
    p.chromosomes.push(chrom(3));
    p.chromosomes.push(chrom(4));
    p.fittness(first_gene_fitness);
    let scores: Vec<u64> = p.chromosomes.iter().map(|c| c.score).collect();
    assert_eq!(scores, vec![4, 3, 2, 1]);
    assert_eq!(p.score_sum, 10);
}

#[test]
fn evaluate_empty_population() {
    let mut p: Population<StepGene> = Population::new();
    p.fittness(first_gene_fitness);
    assert_eq!(p.chromosomes.len(), 0);
    assert_eq!(p.score_sum, 0);
}

#[test]
fn weights_table_is_cumulative() {
    let mut p: Population<StepGene> = Population::new();
    p.chromosomes.push(chrom(1));
    p.chromosomes.push(chrom(2));
    p.chromosomes.push(chrom(3));
    p.chromosomes.push(chrom(4));
    p.fittness(first_gene_fitness);
    let w = weights(&p.chromosomes);
    assert_eq!(w, vec![0, 4, 7, 9, 10]);
}

#[test]
fn roulette_pick_scenario() {
    // Cumulative weights [0, 4, 7, 9, 10]; a draw just below the total
    // must pick the last index.
    let w: Vec<u128> = vec![0, 4, 7, 9, 10];
    assert_eq!(roulette_pick(&w, 9), 3);
    // The same table with every score doubled lets the draw fall midway
    // through the last interval (nine and a half on the undoubled scale).
    let w2: Vec<u128> = vec![0, 8, 14, 18, 20];
    assert_eq!(roulette_pick(&w2, 19), 3);
    // Boundary draws of the first and middle intervals.
    assert_eq!(roulette_pick(&w, 0), 0);
    assert_eq!(roulette_pick(&w, 3), 0);
    assert_eq!(roulette_pick(&w, 4), 1);
    assert_eq!(roulette_pick(&w, 8), 2);
}

#[test]
fn reevaluation_skips_nonzero_scores() {
    let mut p: Population<StepGene> = Population::new();
    let mut cached = chrom(1);
    cached.score = 5;
    p.chromosomes.push(cached);
    p.chromosomes.push(chrom(2));
    // This fitness function would report 7 for every chromosome, but the
    // cached score of 5 must survive while the zero score is replaced.
    p.fittness(|_c: &Chromosome<StepGene>| 7u64);
    let scores: Vec<u64> = p.chromosomes.iter().map(|c| c.score).collect();
    assert_eq!(scores, vec![7, 5]);
    assert_eq!(p.score_sum, 12);
}

#[test]
fn zero_score_is_always_rescored() {
    let mut p: Population<StepGene> = Population::new();
    p.chromosomes.push(chrom(9));
    p.fittness(first_gene_fitness);
    assert_eq!(p.chromosomes[0].score, 9);
    // Force the score back to the unevaluated sentinel; the next pass
    // must score it again.
    p.chromosomes[0].score = 0;
    p.fittness(|_c: &Chromosome<StepGene>| 3u64);
    assert_eq!(p.chromosomes[0].score, 3);
}

fn tag_crossover(
    a: &Chromosome<StepGene>,
    b: &Chromosome<StepGene>,
) -> (Chromosome<StepGene>, Chromosome<StepGene>) {
    let mut left = a.duplicate();
    let mut right = b.duplicate();
    for g in left.genes.iter_mut() {
        g.value = 99;
    }
    for g in right.genes.iter_mut() {
        g.value = 99;
    }
    (left, right)
}

#[test]
fn next_gen_preserves_even_size() {
    let mut rng = GaRng::from_seed(11);
    let mut p: Population<StepGene> = Population::new();
    for x in 1..=6u64 {
        p.chromosomes.push(chrom(x));
    }
    p.fittness(first_gene_fitness);
    assert_eq!(p.chromosomes.len() % 2, 0);
    let r = p.next_gen(&mut rng, tag_crossover);
    assert!(r.is_ok());
    assert_eq!(p.chromosomes.len(), 6);
}

#[test]
fn next_gen_keeps_two_elites_first() {
    let mut rng = GaRng::from_seed(12);
    let mut p: Population<StepGene> = Population::new();
    for x in 1..=4u64 {
        p.chromosomes.push(chrom(x));
    }
    p.fittness(first_gene_fitness);
    let best = p.chromosomes[0].duplicate();
    let second = p.chromosomes[1].duplicate();
    p.next_gen(&mut rng, tag_crossover).unwrap();
    assert_eq!(p.chromosomes[0].genes, best.genes);
    assert_eq!(p.chromosomes[0].score, best.score);
    assert_eq!(p.chromosomes[1].genes, second.genes);
    assert_eq!(p.chromosomes[1].score, second.score);
}

#[test]
fn next_gen_children_carry_zero_score() {
    let mut rng = GaRng::from_seed(13);
    let mut p: Population<StepGene> = Population::new();
    for x in 1..=8u64 {
        p.chromosomes.push(chrom(x));
    }
    p.fittness(first_gene_fitness);
    p.next_gen(&mut rng, tag_crossover).unwrap();
    for c in p.chromosomes.iter().skip(2) {
        assert_eq!(c.score, 0);
    }
    // The two elites keep their nonzero scores.
    assert_eq!(p.chromosomes[0].score, 8);
    assert_eq!(p.chromosomes[1].score, 7);
}

#[test]
fn next_gen_zero_score_sum_is_an_error() {
    let mut rng = GaRng::from_seed(14);
    let mut p: Population<StepGene> = Population::new();
    for x in 1..=4u64 {
        p.chromosomes.push(chrom(x));
    }
    // No evaluation: every score is the zero sentinel, so selection has
    // no sectors to draw from.
    let r = p.next_gen(&mut rng, tag_crossover);
    assert_eq!(r, Err(GaError::ZeroScoreSum));
    assert_eq!(p.chromosomes.len(), 4);
    let scores: Vec<u64> = p.chromosomes.iter().map(|c| c.score).collect();
    assert_eq!(scores, vec![0, 0, 0, 0]);
}

#[test]
fn next_gen_size_two_needs_no_selection() {
    let mut rng = GaRng::from_seed(15);
    let mut p: Population<StepGene> = Population::new();
    p.chromosomes.push(chrom(1));
    p.chromosomes.push(chrom(2));
    // Zero scores are fine here: both slots are elite carry-overs.
    let r = p.next_gen(&mut rng, tag_crossover);
    assert!(r.is_ok());
    assert_eq!(p.chromosomes.len(), 2);
    assert_eq!(p.chromosomes[0].genes, vec![StepGene { value: 1 }]);
    assert_eq!(p.chromosomes[1].genes, vec![StepGene { value: 2 }]);
}

#[test]
fn step_gene_steps_by_one_and_wraps() {
    let mut g = StepGene { value: 41 };
    g.mutate();
    assert_eq!(g.value, 42);
    let mut m = StepGene { value: u64::MAX };
    m.mutate();
    assert_eq!(m.value, 0);
    assert_eq!(m.clone_gene(), m);
}

#[test]
fn duplicate_copies_genes_and_score() {
    let mut c = chrom(3);
    c.genes.push(StepGene { value: 4 });
    c.score = 17;
    let d = c.duplicate();
    assert_eq!(d.genes, c.genes);
    assert_eq!(d.score, 17);
}
