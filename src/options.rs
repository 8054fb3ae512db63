use vstd::prelude::*;

verus! {

/// Iteration budget of the pure-component critical point and spinodal solvers.
pub const MAX_ITER_CRIT_POINT: usize = 50;

/// Iteration budget of the binary critical point solvers.
pub const MAX_ITER_CRIT_POINT_BINARY: usize = 200;

/// Iteration budget of the cross-association solver.
pub const MAX_ITER_CROSS_ASSOC: usize = 50;

/// How much a solver reports about its progress.
#[derive(Clone, Copy, Debug, PartialEq, Eq, Structural)]
pub enum Verbosity {
    /// Report nothing.
    Silent,
    /// Report the outcome only.
    Result,
    /// Report every iteration and the outcome.
    Iter,
}

impl Verbosity {
    /// Whether a record is written for every iteration.
    pub fn logs_iterations(&self) -> (r: bool)
        ensures
            r == (*self == Verbosity::Iter),
    {
        matches!(self, Verbosity::Iter)
    }

    /// Whether the outcome of a solve is reported.
    pub fn logs_result(&self) -> (r: bool)
        ensures
            r == (*self != Verbosity::Silent),
    {
        !matches!(self, Verbosity::Silent)
    }
}

/// The integer part of a solver configuration; the tolerance travels beside it.
#[derive(Clone, Copy, Debug, PartialEq, Eq, Structural)]
pub struct SolverOptions {
    pub max_iter: Option<usize>,
    pub verbosity: Verbosity,
}

impl SolverOptions {
    /// Options that leave the budget to the solver and report nothing.
    pub fn new() -> (r: SolverOptions)
        ensures
            r.max_iter.is_none(),
            r.verbosity == Verbosity::Silent,
    {
        SolverOptions { max_iter: None, verbosity: Verbosity::Silent }
    }

    /// The configured iteration budget, or the solver's default.
    pub fn max_iter_or(&self, default: usize) -> (r: usize)
        ensures
            r == match self.max_iter {
                Some(m) => m,
                None => default,
            },
    {
        match self.max_iter {
            Some(m) => m,
            None => default,
        }
    }
}

} // verus!
