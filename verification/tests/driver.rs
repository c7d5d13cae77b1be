use std::cell::Cell;

use evolution::algorithm::evaluate_fitness;
use evolution::algorithm::run;
use evolution::algorithm::run_bounded;
use evolution::algorithm::EvolutionError;

#[test]
fn evaluate_fitness_is_index_aligned() {
    let population: Vec<u64> = vec![3, 1, 2];
    let doubled = evaluate_fitness(&population, &|t: &u64| *t * 2);
    assert_eq!(doubled, vec![6, 2, 4]);
    assert_eq!(doubled.len(), population.len());
}

#[test]
fn evaluate_fitness_on_empty_population() {
    let population: Vec<u64> = vec![];
    let fitness = evaluate_fitness(&population, &|t: &u64| *t);
    assert!(fitness.is_empty());
}

#[test]
fn increment_until_max_reaches_five() {
    // Identity fitness, increment-by-one mutation, convergence at max >= 5:
    // from [0, 0, 0, 0] the loop must run exactly five generations.
    let fitness_calls = Cell::new(0u64);
    let selection_calls = Cell::new(0u64);
    let crossover_calls = Cell::new(0u64);
    let mutation_calls = Cell::new(0u64);
    let (population, fitness) = run(
        vec![0u64, 0, 0, 0],
        |t: &u64| {
            fitness_calls.set(fitness_calls.get() + 1);
            *t
        },
        |f: &Vec<u64>| f.iter().max().map_or(false, |m| *m >= 5),
        |p: &Vec<u64>, _f: &Vec<u64>| {
            selection_calls.set(selection_calls.get() + 1);
            p.clone()
        },
        |s: &Vec<u64>, _n: usize| {
            crossover_calls.set(crossover_calls.get() + 1);
            s.clone()
        },
        |p: Vec<u64>| {
            mutation_calls.set(mutation_calls.get() + 1);
            p.iter().map(|x| x + 1).collect()
        },
    );
    assert_eq!(population, vec![5, 5, 5, 5]);
    assert_eq!(fitness, vec![5, 5, 5, 5]);
    // Five transformation steps: one initial fitness pass plus one per step.
    assert_eq!(fitness_calls.get(), (5 + 1) * 4);
    assert_eq!(selection_calls.get(), 5);
    assert_eq!(crossover_calls.get(), 5);
    assert_eq!(mutation_calls.get(), 5);
}

#[test]
fn immediately_converged_run_returns_input_unchanged() {
    // A convergence test that accepts at once: zero transformation steps.
    let fitness_calls = Cell::new(0u64);
    let strategy_calls = Cell::new(0u64);
    let (population, fitness) = run(
        vec![42u64],
        |t: &u64| {
            fitness_calls.set(fitness_calls.get() + 1);
            *t
        },
        |_f: &Vec<u64>| true,
        |p: &Vec<u64>, _f: &Vec<u64>| {
            strategy_calls.set(strategy_calls.get() + 1);
            p.clone()
        },
        |s: &Vec<u64>, _n: usize| {
            strategy_calls.set(strategy_calls.get() + 1);
            s.clone()
        },
        |p: Vec<u64>| {
            strategy_calls.set(strategy_calls.get() + 1);
            p
        },
    );
    assert_eq!(population, vec![42]);
    assert_eq!(fitness, vec![42]);
    assert_eq!(fitness_calls.get(), 1);
    assert_eq!(strategy_calls.get(), 0);
}

#[test]
fn fitness_stays_aligned_with_population() {
    // The returned fitness vector must equal the fitness function re-applied
    // to the returned population, index by index.
    let score = |t: &u64| 100 - *t;
    let (population, fitness) = run(
        vec![90u64, 80, 70, 60],
        score,
        |f: &Vec<u64>| f.iter().max().map_or(false, |m| *m >= 45),
        |p: &Vec<u64>, _f: &Vec<u64>| p.clone(),
        |s: &Vec<u64>, _n: usize| s.clone(),
        |p: Vec<u64>| p.iter().map(|x| x - 1).collect(),
    );
    assert_eq!(population.len(), fitness.len());
    for (specimen, fit) in population.iter().zip(fitness.iter()) {
        assert_eq!(*fit, score(specimen));
    }
}

#[test]
fn crossover_restores_population_size_after_narrowing_selection() {
    // Selection halves the pool; crossover rebuilds a full-size population by
    // cycling through the parents; the population size never drifts.
    let (population, fitness) = run(
        vec![0u64, 1, 2, 3],
        |t: &u64| *t,
        |f: &Vec<u64>| f.iter().max().map_or(false, |m| *m >= 6),
        |p: &Vec<u64>, _f: &Vec<u64>| p[2..].to_vec(),
        |s: &Vec<u64>, n: usize| (0..n).map(|i| s[i % s.len()]).collect(),
        |p: Vec<u64>| p.iter().map(|x| x + 1).collect(),
    );
    assert_eq!(population, vec![5, 6, 5, 6]);
    assert_eq!(fitness, vec![5, 6, 5, 6]);
}

#[test]
fn bounded_run_converges_like_the_plain_one() {
    let result = run_bounded(
        vec![0u64, 0, 0, 0],
        |t: &u64| *t,
        |f: &Vec<u64>| f.iter().max().map_or(false, |m| *m >= 5),
        |p: &Vec<u64>, _f: &Vec<u64>| p.clone(),
        |s: &Vec<u64>, _n: usize| s.clone(),
        |p: Vec<u64>| p.iter().map(|x| x + 1).collect(),
        10,
    );
    assert_eq!(result, Ok((vec![5, 5, 5, 5], vec![5, 5, 5, 5])));
}

#[test]
fn undersized_crossover_fails_fast() {
    // A crossover strategy that ignores the requested size is a caller
    // contract violation and must be reported before the next fitness pass.
    let fitness_calls = Cell::new(0u64);
    let mutation_calls = Cell::new(0u64);
    let result = run_bounded(
        vec![0u64, 0, 0, 0],
        |t: &u64| {
            fitness_calls.set(fitness_calls.get() + 1);
            *t
        },
        |f: &Vec<u64>| f.iter().max().map_or(false, |m| *m >= 5),
        |p: &Vec<u64>, _f: &Vec<u64>| p.clone(),
        |_s: &Vec<u64>, _n: usize| vec![1, 2],
        |p: Vec<u64>| {
            mutation_calls.set(mutation_calls.get() + 1);
            p
        },
        10,
    );
    assert_eq!(
        result,
        Err(EvolutionError::CrossoverSizeMismatch { expected: 4, actual: 2 })
    );
    // Fail fast: only the initial fitness pass ran, and mutation never did.
    assert_eq!(fitness_calls.get(), 4);
    assert_eq!(mutation_calls.get(), 0);
}

#[test]
fn length_changing_mutation_fails_fast() {
    let result = run_bounded(
        vec![0u64, 0, 0],
        |t: &u64| *t,
        |f: &Vec<u64>| f.iter().max().map_or(false, |m| *m >= 5),
        |p: &Vec<u64>, _f: &Vec<u64>| p.clone(),
        |s: &Vec<u64>, _n: usize| s.clone(),
        |mut p: Vec<u64>| {
            p.push(9);
            p
        },
        10,
    );
    assert_eq!(
        result,
        Err(EvolutionError::MutationSizeMismatch { expected: 3, actual: 4 })
    );
}

#[test]
fn exhausted_generation_budget_is_reported() {
    let selection_calls = Cell::new(0u64);
    let result = run_bounded(
        vec![0u64, 0],
        |t: &u64| *t,
        |_f: &Vec<u64>| false,
        |p: &Vec<u64>, _f: &Vec<u64>| {
            selection_calls.set(selection_calls.get() + 1);
            p.clone()
        },
        |s: &Vec<u64>, _n: usize| s.clone(),
        |p: Vec<u64>| p.iter().map(|x| x + 1).collect(),
        3,
    );
    assert_eq!(result, Err(EvolutionError::GenerationLimitReached));
    assert_eq!(selection_calls.get(), 3);
}

#[test]
fn zero_budget_reports_limit_unless_converged() {
    let rejected = run_bounded(
        vec![1u64],
        |t: &u64| *t,
        |_f: &Vec<u64>| false,
        |p: &Vec<u64>, _f: &Vec<u64>| p.clone(),
        |s: &Vec<u64>, _n: usize| s.clone(),
        |p: Vec<u64>| p,
        0,
    );
    assert_eq!(rejected, Err(EvolutionError::GenerationLimitReached));
    let accepted = run_bounded(
        vec![1u64],
        |t: &u64| *t,
        |_f: &Vec<u64>| true,
        |p: &Vec<u64>, _f: &Vec<u64>| p.clone(),
        |s: &Vec<u64>, _n: usize| s.clone(),
        |p: Vec<u64>| p,
        0,
    );
    assert_eq!(accepted, Ok((vec![1], vec![1])));
}
