//! The evolution driver: a generational loop over caller-supplied strategies.
//!
//! Populations and fitness vectors are plain `Vec`s; the strategies (fitness
//! scoring, convergence test, selection, crossover, mutation) are function
//! values supplied by the caller. The contracts below describe the driver's
//! behaviour as a relation over whole generational traces: which populations
//! are reachable from the initial one by strategy-consistent steps, and what
//! must hold of the generation that is finally returned.

use vstd::prelude::*;

verus! {

/// `fit` is a fitness vector for `pop`: same length, and `fit[i]` is a value
/// the fitness function may return for `pop[i]`.
pub open spec fn fitness_matches<T, I, FF: Fn(&T) -> I>(ff: FF, pop: Seq<T>, fit: Seq<I>) -> bool {
    &&& fit.len() == pop.len()
    &&& forall|i: int| 0 <= i < pop.len() ==> call_ensures(ff, (&pop[i],), #[trigger] fit[i])
}

/// One full transformation step on a generation `(pop, fit)`: some selection
/// pool the selection strategy may produce, crossed over to a population of
/// the requested size, then perturbed by the mutation strategy into `next`.
pub open spec fn step_rel<
    T,
    I,
    SF: Fn(&Vec<T>, &Vec<I>) -> Vec<T>,
    XF: Fn(&Vec<T>, usize) -> Vec<T>,
    MF: Fn(Vec<T>) -> Vec<T>,
>(sf: SF, xf: XF, mf: MF, size: usize, pop: Vec<T>, fit: Vec<I>, next: Vec<T>) -> bool {
    exists|selected: Vec<T>, crossed: Vec<T>|
        #![trigger call_ensures(xf, (&selected, size), crossed)]
        {
            &&& call_ensures(sf, (&pop, &fit), selected)
            &&& call_ensures(xf, (&selected, size), crossed)
            &&& call_ensures(mf, (crossed,), next)
        }
}

/// `(end_pop, end_fit)` is reachable from the generation `(pop, fit)` in
/// exactly `n` transformation steps: before each step the convergence test
/// rejects the current fitness vector, the step follows the selection,
/// crossover and mutation strategies, and the new population is re-scored by
/// the fitness function.
pub open spec fn reaches<
    T,
    I,
    FF: Fn(&T) -> I,
    CC: Fn(&Vec<I>) -> bool,
    SF: Fn(&Vec<T>, &Vec<I>) -> Vec<T>,
    XF: Fn(&Vec<T>, usize) -> Vec<T>,
    MF: Fn(Vec<T>) -> Vec<T>,
>(
    ff: FF,
    cc: CC,
    sf: SF,
    xf: XF,
    mf: MF,
    size: usize,
    pop: Vec<T>,
    fit: Vec<I>,
    end_pop: Vec<T>,
    end_fit: Vec<I>,
    n: nat,
) -> bool
    decreases n,
{
    if n == 0 {
        pop == end_pop && fit == end_fit
    } else {
        &&& call_ensures(cc, (&fit,), false)
        &&& exists|pop2: Vec<T>, fit2: Vec<I>|
            #![trigger step_rel(sf, xf, mf, size, pop, fit, pop2), fitness_matches(ff, pop2@, fit2@)]
            {
                &&& step_rel(sf, xf, mf, size, pop, fit, pop2)
                &&& fitness_matches(ff, pop2@, fit2@)
                &&& reaches(ff, cc, sf, xf, mf, size, pop2, fit2, end_pop, end_fit, (n - 1) as nat)
            }
    }
}

/// Termination evidence for the generational loop: whenever the convergence
/// test can still reject the fitness vector of `(pop, fit)`, there is at
/// least one step left in the budget `n`, and every generation one
/// strategy-consistent step away converges within the remaining budget.
pub open spec fn converges_within<
    T,
    I,
    FF: Fn(&T) -> I,
    CC: Fn(&Vec<I>) -> bool,
    SF: Fn(&Vec<T>, &Vec<I>) -> Vec<T>,
    XF: Fn(&Vec<T>, usize) -> Vec<T>,
    MF: Fn(Vec<T>) -> Vec<T>,
>(ff: FF, cc: CC, sf: SF, xf: XF, mf: MF, size: usize, pop: Vec<T>, fit: Vec<I>, n: nat) -> bool
    decreases n,
{
    call_ensures(cc, (&fit,), false) ==> {
        &&& n > 0
        &&& forall|pop2: Vec<T>, fit2: Vec<I>|
            #![trigger step_rel(sf, xf, mf, size, pop, fit, pop2), fitness_matches(ff, pop2@, fit2@)]
            (step_rel(sf, xf, mf, size, pop, fit, pop2) && fitness_matches(ff, pop2@, fit2@))
                ==> converges_within(ff, cc, sf, xf, mf, size, pop2, fit2, (n - 1) as nat)
    }
}

/// The run must terminate: however the fitness function scores the initial
/// population, some step budget suffices for convergence. Non-termination of
/// the generational loop is the caller's responsibility, and this predicate
/// is how the caller discharges it.
pub open spec fn terminates<
    T,
    I,
    FF: Fn(&T) -> I,
    CC: Fn(&Vec<I>) -> bool,
    SF: Fn(&Vec<T>, &Vec<I>) -> Vec<T>,
    XF: Fn(&Vec<T>, usize) -> Vec<T>,
    MF: Fn(Vec<T>) -> Vec<T>,
>(ff: FF, cc: CC, sf: SF, xf: XF, mf: MF, size: usize, pop: Vec<T>) -> bool {
    forall|fit0: Vec<I>| #[trigger]
        fitness_matches(ff, pop@, fit0@) ==> exists|n: nat|
            converges_within(ff, cc, sf, xf, mf, size, pop, fit0, n)
}

/// The caller's strategies accept every value the driver may hand them.
pub open spec fn strategies_callable<
    T,
    I,
    FF: Fn(&T) -> I,
    CC: Fn(&Vec<I>) -> bool,
    SF: Fn(&Vec<T>, &Vec<I>) -> Vec<T>,
    XF: Fn(&Vec<T>, usize) -> Vec<T>,
    MF: Fn(Vec<T>) -> Vec<T>,
>(ff: FF, cc: CC, sf: SF, xf: XF, mf: MF, size: usize) -> bool {
    &&& forall|t: &T| call_requires(ff, (t,))
    &&& forall|fit: &Vec<I>| call_requires(cc, (fit,))
    &&& forall|pop: &Vec<T>, fit: &Vec<I>| call_requires(sf, (pop, fit))
    &&& forall|selected: &Vec<T>| call_requires(xf, (selected, size))
    &&& forall|pop: Vec<T>| call_requires(mf, (pop,))
}

/// The caller-side size contract: crossover returns exactly the population
/// size it is asked for, and mutation never changes the length of the
/// population it perturbs.
pub open spec fn strategies_preserve_size<
    T,
    XF: Fn(&Vec<T>, usize) -> Vec<T>,
    MF: Fn(Vec<T>) -> Vec<T>,
>(xf: XF, mf: MF, size: usize) -> bool {
    &&& forall|selected: &Vec<T>, out: Vec<T>|
        call_ensures(xf, (selected, size), out) ==> out@.len() == size
    &&& forall|pop: Vec<T>, out: Vec<T>| call_ensures(mf, (pop,), out) ==> out@.len() == pop@.len()
}

/// A trace may be extended by one more step at its end.
pub proof fn lemma_reaches_extend<
    T,
    I,
    FF: Fn(&T) -> I,
    CC: Fn(&Vec<I>) -> bool,
    SF: Fn(&Vec<T>, &Vec<I>) -> Vec<T>,
    XF: Fn(&Vec<T>, usize) -> Vec<T>,
    MF: Fn(Vec<T>) -> Vec<T>,
>(
    ff: FF,
    cc: CC,
    sf: SF,
    xf: XF,
    mf: MF,
    size: usize,
    pop0: Vec<T>,
    fit0: Vec<I>,
    pop1: Vec<T>,
    fit1: Vec<I>,
    pop2: Vec<T>,
    fit2: Vec<I>,
    n: nat,
)
    requires
        reaches(ff, cc, sf, xf, mf, size, pop0, fit0, pop1, fit1, n),
        call_ensures(cc, (&fit1,), false),
        step_rel(sf, xf, mf, size, pop1, fit1, pop2),
        fitness_matches(ff, pop2@, fit2@),
    ensures
        reaches(ff, cc, sf, xf, mf, size, pop0, fit0, pop2, fit2, n + 1),
    decreases n,
{
    if n == 0 {
        assert(reaches(ff, cc, sf, xf, mf, size, pop2, fit2, pop2, fit2, 0));
    } else {
        let (p, f) = choose|p: Vec<T>, f: Vec<I>|
            #![trigger step_rel(sf, xf, mf, size, pop0, fit0, p), fitness_matches(ff, p@, f@)]
            {
                &&& step_rel(sf, xf, mf, size, pop0, fit0, p)
                &&& fitness_matches(ff, p@, f@)
                &&& reaches(ff, cc, sf, xf, mf, size, p, f, pop1, fit1, (n - 1) as nat)
            };
        lemma_reaches_extend(ff, cc, sf, xf, mf, size, p, f, pop1, fit1, pop2, fit2, (n - 1) as nat);
    }
}

/// Applies the fitness function to every specimen, preserving order, so that
/// the result is index-aligned with the population.
pub fn evaluate_fitness<T, I, FF: Fn(&T) -> I>(
    population: &Vec<T>,
    fitness_function: &FF,
) -> (fitness: Vec<I>)
    requires
        forall|i: int|
            0 <= i < population@.len() ==> call_requires(*fitness_function, (&population@[i],)),
    ensures
        fitness_matches(*fitness_function, population@, fitness@),
{
    let mut fitness: Vec<I> = Vec::new();
    let mut j: usize = 0;
    while j < population.len()
        invariant
            j <= population@.len(),
            fitness@.len() == j,
            forall|i: int|
                0 <= i < population@.len() ==> call_requires(*fitness_function, (&population@[i],)),
            forall|i: int|
                0 <= i < j ==> call_ensures(*fitness_function, (&population@[i],), #[trigger] fitness@[i]),
        decreases population@.len() - j,
    {
        let score = fitness_function(&population[j]);
        fitness.push(score);
        j += 1;
    }
    fitness
}

/// Runs the generational loop to convergence: scores the initial population,
/// and while the convergence test rejects the scores, selects parents,
/// crosses them over to a population of the initial size, mutates it and
/// re-scores it. Returns the first generation whose fitness vector the
/// convergence test accepts, together with that fitness vector.
pub fn run<
    T,
    I,
    FF: Fn(&T) -> I,
    CC: Fn(&Vec<I>) -> bool,
    SF: Fn(&Vec<T>, &Vec<I>) -> Vec<T>,
    XF: Fn(&Vec<T>, usize) -> Vec<T>,
    MF: Fn(Vec<T>) -> Vec<T>,
>(
    initial_population: Vec<T>,
    fitness_function: FF,
    is_converged: CC,
    selection_function: SF,
    crossover_function: XF,
    mutation_function: MF,
) -> (result: (Vec<T>, Vec<I>))
    requires
        strategies_callable(
            fitness_function,
            is_converged,
            selection_function,
            crossover_function,
            mutation_function,
            initial_population.len(),
        ),
        strategies_preserve_size(
            crossover_function,
            mutation_function,
            initial_population.len(),
        ),
        terminates(
            fitness_function,
            is_converged,
            selection_function,
            crossover_function,
            mutation_function,
            initial_population.len(),
            initial_population,
        ),
    ensures
        result.0@.len() == initial_population@.len(),
        result.1@.len() == result.0@.len(),
        fitness_matches(fitness_function, result.0@, result.1@),
        call_ensures(is_converged, (&result.1,), true),
        exists|fit0: Vec<I>, n: nat|
            #![trigger reaches(fitness_function, is_converged, selection_function, crossover_function, mutation_function, initial_population.len(), initial_population, fit0, result.0, result.1, n)]
            {
                &&& fitness_matches(fitness_function, initial_population@, fit0@)
                &&& reaches(
                    fitness_function,
                    is_converged,
                    selection_function,
                    crossover_function,
                    mutation_function,
                    initial_population.len(),
                    initial_population,
                    fit0,
                    result.0,
                    result.1,
                    n,
                )
            },
{
    let population_size = initial_population.len();
    let mut population = initial_population;
    let mut fitness = evaluate_fitness(&population, &fitness_function);
    let ghost initial_pop = population;
    let ghost fit0 = fitness;
    let ghost mut steps: nat = 0;
    proof {
        assert(fitness_matches(fitness_function, initial_pop@, fit0@));
    }
    let ghost mut remaining: nat = choose|n: nat|
        converges_within(
            fitness_function,
            is_converged,
            selection_function,
            crossover_function,
            mutation_function,
            population_size,
            initial_pop,
            fit0,
            n,
        );
    loop
        invariant
            population_size == initial_pop@.len(),
            strategies_callable(
                fitness_function,
                is_converged,
                selection_function,
                crossover_function,
                mutation_function,
                population_size,
            ),
            strategies_preserve_size(crossover_function, mutation_function, population_size),
            population@.len() == population_size,
            fitness_matches(fitness_function, population@, fitness@),
            reaches(
                fitness_function,
                is_converged,
                selection_function,
                crossover_function,
                mutation_function,
                population_size,
                initial_pop,
                fit0,
                population,
                fitness,
                steps,
            ),
            converges_within(
                fitness_function,
                is_converged,
                selection_function,
                crossover_function,
                mutation_function,
                population_size,
                population,
                fitness,
                remaining,
            ),
        ensures
            call_ensures(is_converged, (&fitness,), true),
        decreases remaining,
    {
        let converged = is_converged(&fitness);
        if converged {
            break ;
        }
        let ghost prev_pop = population;
        let ghost prev_fit = fitness;
        let selected = selection_function(&population, &fitness);
        population = crossover_function(&selected, population_size);
        let ghost crossed = population;
        population = mutation_function(population);
        fitness = evaluate_fitness(&population, &fitness_function);
        proof {
            assert(step_rel(
                selection_function,
                crossover_function,
                mutation_function,
                population_size,
                prev_pop,
                prev_fit,
                population,
            ));
            lemma_reaches_extend(
                fitness_function,
                is_converged,
                selection_function,
                crossover_function,
                mutation_function,
                population_size,
                initial_pop,
                fit0,
                prev_pop,
                prev_fit,
                population,
                fitness,
                steps,
            );
            steps = steps + 1;
            remaining = (remaining - 1) as nat;
        }
    }
    (population, fitness)
}

/// A fail-fast report from the defensive driver variant: a strategy broke the
/// population-size contract, or the run exhausted its generation budget.
#[derive(Debug, Clone, Copy, PartialEq, Eq)]
pub enum EvolutionError {
    /// Crossover returned `actual` specimens although `expected` were requested.
    CrossoverSizeMismatch { expected: usize, actual: usize },
    /// Mutation turned a population of `expected` specimens into one of `actual`.
    MutationSizeMismatch { expected: usize, actual: usize },
    /// The convergence test still rejected the fitness vector after the
    /// allowed number of transformation steps.
    GenerationLimitReached,
}

/// From the generation `(pop, fit)`, the selection and crossover strategies
/// can produce a crossed-over population of length `actual` although length
/// `size` was requested.
pub open spec fn crossover_size_violation<
    T,
    I,
    SF: Fn(&Vec<T>, &Vec<I>) -> Vec<T>,
    XF: Fn(&Vec<T>, usize) -> Vec<T>,
>(sf: SF, xf: XF, size: usize, pop: Vec<T>, fit: Vec<I>, actual: usize) -> bool {
    exists|selected: Vec<T>, crossed: Vec<T>|
        #![trigger call_ensures(xf, (&selected, size), crossed)]
        {
            &&& call_ensures(sf, (&pop, &fit), selected)
            &&& call_ensures(xf, (&selected, size), crossed)
            &&& crossed@.len() == actual
        }
}

/// From the generation `(pop, fit)`, the strategies can produce a correctly
/// sized crossed-over population that the mutation strategy then turns into
/// one of length `actual` instead of `size`.
pub open spec fn mutation_size_violation<
    T,
    I,
    SF: Fn(&Vec<T>, &Vec<I>) -> Vec<T>,
    XF: Fn(&Vec<T>, usize) -> Vec<T>,
    MF: Fn(Vec<T>) -> Vec<T>,
>(sf: SF, xf: XF, mf: MF, size: usize, pop: Vec<T>, fit: Vec<I>, actual: usize) -> bool {
    exists|selected: Vec<T>, crossed: Vec<T>, mutated: Vec<T>|
        #![trigger call_ensures(xf, (&selected, size), crossed), call_ensures(mf, (crossed,), mutated)]
        {
            &&& call_ensures(sf, (&pop, &fit), selected)
            &&& call_ensures(xf, (&selected, size), crossed)
            &&& crossed@.len() == size
            &&& call_ensures(mf, (crossed,), mutated)
            &&& mutated@.len() == actual
        }
}

/// The defensive driver variant: the same generational loop as [`run`], but
/// with a generation budget instead of termination evidence, and with a
/// fail-fast runtime check that each generation keeps the initial population
/// size. Where [`run`] trusts the caller's strategies, this variant reports a
/// broken size contract, or an exhausted budget, as an error instead of
/// proceeding on a corrupted generation.
pub fn run_bounded<
    T,
    I,
    FF: Fn(&T) -> I,
    CC: Fn(&Vec<I>) -> bool,
    SF: Fn(&Vec<T>, &Vec<I>) -> Vec<T>,
    XF: Fn(&Vec<T>, usize) -> Vec<T>,
    MF: Fn(Vec<T>) -> Vec<T>,
>(
    initial_population: Vec<T>,
    fitness_function: FF,
    is_converged: CC,
    selection_function: SF,
    crossover_function: XF,
    mutation_function: MF,
    max_generations: usize,
) -> (result: Result<(Vec<T>, Vec<I>), EvolutionError>)
    requires
        strategies_callable(
            fitness_function,
            is_converged,
            selection_function,
            crossover_function,
            mutation_function,
            initial_population.len(),
        ),
    ensures
        match result {
            Ok(r) => {
                &&& r.0@.len() == initial_population@.len()
                &&& r.1@.len() == r.0@.len()
                &&& fitness_matches(fitness_function, r.0@, r.1@)
                &&& call_ensures(is_converged, (&r.1,), true)
                &&& exists|fit0: Vec<I>, n: nat|
                    #![trigger reaches(fitness_function, is_converged, selection_function, crossover_function, mutation_function, initial_population.len(), initial_population, fit0, r.0, r.1, n)]
                    {
                        &&& fitness_matches(fitness_function, initial_population@, fit0@)
                        &&& reaches(
                            fitness_function,
                            is_converged,
                            selection_function,
                            crossover_function,
                            mutation_function,
                            initial_population.len(),
                            initial_population,
                            fit0,
                            r.0,
                            r.1,
                            n,
                        )
                        &&& n <= max_generations
                    }
            },
            Err(e) => match e {
                EvolutionError::CrossoverSizeMismatch { expected, actual } => {
                    &&& expected == initial_population.len()
                    &&& actual != expected
                    &&& exists|fit0: Vec<I>, pop: Vec<T>, fit: Vec<I>, k: nat|
                        #![trigger reaches(fitness_function, is_converged, selection_function, crossover_function, mutation_function, initial_population.len(), initial_population, fit0, pop, fit, k)]
                        {
                            &&& fitness_matches(fitness_function, initial_population@, fit0@)
                            &&& reaches(
                                fitness_function,
                                is_converged,
                                selection_function,
                                crossover_function,
                                mutation_function,
                                initial_population.len(),
                                initial_population,
                                fit0,
                                pop,
                                fit,
                                k,
                            )
                            &&& k < max_generations
                            &&& call_ensures(is_converged, (&fit,), false)
                            &&& crossover_size_violation(
                                selection_function,
                                crossover_function,
                                initial_population.len(),
                                pop,
                                fit,
                                actual,
                            )
                        }
                },
                EvolutionError::MutationSizeMismatch { expected, actual } => {
                    &&& expected == initial_population.len()
                    &&& actual != expected
                    &&& exists|fit0: Vec<I>, pop: Vec<T>, fit: Vec<I>, k: nat|
                        #![trigger reaches(fitness_function, is_converged, selection_function, crossover_function, mutation_function, initial_population.len(), initial_population, fit0, pop, fit, k)]
                        {
                            &&& fitness_matches(fitness_function, initial_population@, fit0@)
                            &&& reaches(
                                fitness_function,
                                is_converged,
                                selection_function,
                                crossover_function,
                                mutation_function,
                                initial_population.len(),
                                initial_population,
                                fit0,
                                pop,
                                fit,
                                k,
                            )
                            &&& k < max_generations
                            &&& call_ensures(is_converged, (&fit,), false)
                            &&& mutation_size_violation(
                                selection_function,
                                crossover_function,
                                mutation_function,
                                initial_population.len(),
                                pop,
                                fit,
                                actual,
                            )
                        }
                },
                EvolutionError::GenerationLimitReached => {
                    exists|fit0: Vec<I>, pop: Vec<T>, fit: Vec<I>|
                        #![trigger reaches(fitness_function, is_converged, selection_function, crossover_function, mutation_function, initial_population.len(), initial_population, fit0, pop, fit, max_generations as nat)]
                        {
                            &&& fitness_matches(fitness_function, initial_population@, fit0@)
                            &&& fitness_matches(fitness_function, pop@, fit@)
                            &&& reaches(
                                fitness_function,
                                is_converged,
                                selection_function,
                                crossover_function,
                                mutation_function,
                                initial_population.len(),
                                initial_population,
                                fit0,
                                pop,
                                fit,
                                max_generations as nat,
                            )
                            &&& call_ensures(is_converged, (&fit,), false)
                        }
                },
            },
        },
{
    let population_size = initial_population.len();
    let mut population = initial_population;
    let mut fitness = evaluate_fitness(&population, &fitness_function);
    let ghost initial_pop = population;
    let ghost fit0 = fitness;
    let mut generation: usize = 0;
    loop
        invariant
            initial_pop == initial_population,
            population_size == initial_population.len(),
            strategies_callable(
                fitness_function,
                is_converged,
                selection_function,
                crossover_function,
                mutation_function,
                population_size,
            ),
            population@.len() == population_size,
            fitness_matches(fitness_function, population@, fitness@),
            fitness_matches(fitness_function, initial_pop@, fit0@),
            generation <= max_generations,
            reaches(
                fitness_function,
                is_converged,
                selection_function,
                crossover_function,
                mutation_function,
                population_size,
                initial_pop,
                fit0,
                population,
                fitness,
                generation as nat,
            ),
        ensures
            call_ensures(is_converged, (&fitness,), true),
        decreases max_generations - generation,
    {
        let converged = is_converged(&fitness);
        if converged {
            break ;
        }
        if generation == max_generations {
            return Err(EvolutionError::GenerationLimitReached);
        }
        let ghost prev_pop = population;
        let selected = selection_function(&population, &fitness);
        population = crossover_function(&selected, population_size);
        if population.len() != population_size {
            proof {
                assert(crossover_size_violation(
                    selection_function,
                    crossover_function,
                    population_size,
                    prev_pop,
                    fitness,
                    population.len(),
                ));
            }
            return Err(EvolutionError::CrossoverSizeMismatch {
                expected: population_size,
                actual: population.len(),
            });
        }
        let ghost crossed = population;
        population = mutation_function(population);
        if population.len() != population_size {
            proof {
                assert(mutation_size_violation(
                    selection_function,
                    crossover_function,
                    mutation_function,
                    population_size,
                    prev_pop,
                    fitness,
                    population.len(),
                ));
            }
            return Err(EvolutionError::MutationSizeMismatch {
                expected: population_size,
                actual: population.len(),
            });
        }
        let ghost prev_fit = fitness;
        fitness = evaluate_fitness(&population, &fitness_function);
        proof {
            assert(step_rel(
                selection_function,
                crossover_function,
                mutation_function,
                population_size,
                prev_pop,
                prev_fit,
                population,
            ));
            lemma_reaches_extend(
                fitness_function,
                is_converged,
                selection_function,
                crossover_function,
                mutation_function,
                population_size,
                initial_pop,
                fit0,
                prev_pop,
                prev_fit,
                population,
                fitness,
                generation as nat,
            );
        }
        generation = generation + 1;
    }
    Ok((population, fitness))
}

/// Immediate convergence: a trace whose starting fitness vector the
/// convergence test can never reject has zero transformation steps, so the
/// driver hands back the starting population and its fitness unchanged and no
/// selection, crossover or mutation ever happens.
pub proof fn lemma_immediate_convergence<
    T,
    I,
    FF: Fn(&T) -> I,
    CC: Fn(&Vec<I>) -> bool,
    SF: Fn(&Vec<T>, &Vec<I>) -> Vec<T>,
    XF: Fn(&Vec<T>, usize) -> Vec<T>,
    MF: Fn(Vec<T>) -> Vec<T>,
>(
    ff: FF,
    cc: CC,
    sf: SF,
    xf: XF,
    mf: MF,
    size: usize,
    pop: Vec<T>,
    fit: Vec<I>,
    end_pop: Vec<T>,
    end_fit: Vec<I>,
    n: nat,
)
    requires
        reaches(ff, cc, sf, xf, mf, size, pop, fit, end_pop, end_fit, n),
        !call_ensures(cc, (&fit,), false),
    ensures
        n == 0,
        end_pop == pop,
        end_fit == fit,
{
}

/// Size invariant: after at least one transformation step, a generation
/// reached under size-respecting crossover and mutation strategies has
/// exactly `size` specimens.
pub proof fn lemma_size_invariant<
    T,
    I,
    FF: Fn(&T) -> I,
    CC: Fn(&Vec<I>) -> bool,
    SF: Fn(&Vec<T>, &Vec<I>) -> Vec<T>,
    XF: Fn(&Vec<T>, usize) -> Vec<T>,
    MF: Fn(Vec<T>) -> Vec<T>,
>(
    ff: FF,
    cc: CC,
    sf: SF,
    xf: XF,
    mf: MF,
    size: usize,
    pop: Vec<T>,
    fit: Vec<I>,
    end_pop: Vec<T>,
    end_fit: Vec<I>,
    n: nat,
)
    requires
        reaches(ff, cc, sf, xf, mf, size, pop, fit, end_pop, end_fit, n),
        strategies_preserve_size(xf, mf, size),
        n > 0,
    ensures
        end_pop@.len() == size,
        end_fit@.len() == size,
    decreases n,
{
    let (p, f) = choose|p: Vec<T>, f: Vec<I>|
        #![trigger step_rel(sf, xf, mf, size, pop, fit, p), fitness_matches(ff, p@, f@)]
        {
            &&& step_rel(sf, xf, mf, size, pop, fit, p)
            &&& fitness_matches(ff, p@, f@)
            &&& reaches(ff, cc, sf, xf, mf, size, p, f, end_pop, end_fit, (n - 1) as nat)
        };
    if n == 1 {
        assert(p == end_pop && f == end_fit);
        assert(p@.len() == size);
    } else {
        lemma_size_invariant(ff, cc, sf, xf, mf, size, p, f, end_pop, end_fit, (n - 1) as nat);
    }
}

/// A convergence test that can never reject a fitness vector makes the
/// generational loop stop at once: a zero step budget is termination
/// evidence, whatever the other strategies do.
pub proof fn lemma_terminates_when_never_rejected<
    T,
    I,
    FF: Fn(&T) -> I,
    CC: Fn(&Vec<I>) -> bool,
    SF: Fn(&Vec<T>, &Vec<I>) -> Vec<T>,
    XF: Fn(&Vec<T>, usize) -> Vec<T>,
    MF: Fn(Vec<T>) -> Vec<T>,
>(ff: FF, cc: CC, sf: SF, xf: XF, mf: MF, size: usize, pop: Vec<T>)
    requires
        forall|fit: &Vec<I>| !call_ensures(cc, (fit,), false),
    ensures
        terminates(ff, cc, sf, xf, mf, size, pop),
{
    assert forall|fit0: Vec<I>| #[trigger] fitness_matches(ff, pop@, fit0@) implies exists|n: nat|
        converges_within(ff, cc, sf, xf, mf, size, pop, fit0, n) by {
        assert(converges_within(ff, cc, sf, xf, mf, size, pop, fit0, 0));
    }
}

} // verus!
