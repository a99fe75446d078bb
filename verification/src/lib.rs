//! A genetic-algorithm engine: populations of gene sequences evolve through
//! fitness evaluation, fitness-proportionate parent selection, crossover and
//! mutation, with the two best candidates of each generation carried over
//! unchanged.

mod gene;
mod population;
mod rng;
mod select;

pub use gene::Chromosome;
pub use gene::Gene;
pub use gene::StepGene;
pub use gene::MUTATION_PROB_DEN;
pub use gene::MUTATION_PROB_NUM;
pub use population::bred_from;
pub use population::child_pair;
pub use population::gen_children;
pub use population::offspring_lens;
pub use population::rescored;
pub use population::sorted_desc;
pub use population::GaError;
pub use population::Population;
pub use population::CROSSOVER_PROB_DEN;
pub use population::CROSSOVER_PROB_NUM;
pub use rng::GaRng;
pub use select::cumulative_weights;
pub use select::nondecreasing;
pub use select::roulette_pick;
pub use select::roulette_selection;
pub use select::select_parents;
pub use select::sum_scores;
pub use select::weights;
