//! A generic evolutionary-optimization driver.
//!
//! The library owns no concrete genetic representation: fitness scoring,
//! convergence testing, selection, crossover and mutation are all supplied by
//! the caller as function values. The driver only orchestrates the
//! generational pipeline (evaluate, test convergence, select, cross over,
//! mutate, re-evaluate) and keeps the population and its fitness vector
//! index-aligned and of equal length throughout.

pub mod algorithm;
