use vstd::prelude::*;
use crate::errors::{EosError, Stage};

verus! {

/// The iterative solvers whose loops are controlled here.
#[derive(Clone, Copy, Debug, PartialEq, Eq, Structural)]
pub enum Solver {
    CriticalPoint,
    Spinodal,
    CrossAssociation,
}

/// The failure a solver reports when its budget runs out.
pub open spec fn exhausted_error(s: Solver) -> EosError {
    match s {
        Solver::CriticalPoint => EosError::NotConverged(Stage::CriticalPoint),
        Solver::Spinodal => EosError::SuperCritical,
        Solver::CrossAssociation => EosError::NotConverged(Stage::CrossAssociation),
    }
}

/// What the driver of a Newton loop does next.
#[derive(Clone, Copy, Debug, PartialEq, Eq, Structural)]
pub enum Progress {
    /// Take another step.
    Continue,
    /// The tolerance was met after this many steps.
    Converged(usize),
    /// Stop with this failure.
    Failed(EosError),
}

/// Step counter of a Newton iteration with a fixed budget.
#[derive(Clone, Copy, Debug)]
pub struct NewtonLoop {
    pub solver: Solver,
    pub iteration: usize,
    pub max_iter: usize,
    pub finished: bool,
}

impl NewtonLoop {
    /// Steps have not run past the budget, and a finished loop took at least one.
    pub open spec fn wf(&self) -> bool {
        &&& self.iteration <= self.max_iter
        &&& self.iteration == self.max_iter ==> self.finished
    }

    /// A fresh loop for `solver` with `max_iter` allowed steps.
    pub fn new(solver: Solver, max_iter: usize) -> (r: NewtonLoop)
        ensures
            r.wf(),
            r.solver == solver,
            r.iteration == 0,
            r.max_iter == max_iter,
            r.finished == (max_iter == 0),
    {
        NewtonLoop { solver, iteration: 0, max_iter, finished: max_iter == 0 }
    }

    /// Whether the driver may take another step.
    pub fn can_step(&self) -> (r: bool)
        ensures
            r == !self.finished,
    {
        !self.finished
    }

    /// The failure this solver reports when its budget runs out.
    pub fn exhausted_error(&self) -> (r: EosError)
        ensures
            r == exhausted_error(self.solver),
    {
        match self.solver {
            Solver::CriticalPoint => EosError::NotConverged(Stage::CriticalPoint),
            Solver::Spinodal => EosError::SuperCritical,
            Solver::CrossAssociation => EosError::NotConverged(Stage::CrossAssociation),
        }
    }

    /// Records one step whose residual did (or did not) meet the tolerance.
    pub fn record_step(&mut self, converged: bool) -> (r: Progress)
        requires
            old(self).wf(),
            !old(self).finished,
        ensures
            final(self).wf(),
            final(self).solver == old(self).solver,
            final(self).max_iter == old(self).max_iter,
            final(self).iteration == old(self).iteration + 1,
            final(self).iteration <= final(self).max_iter,
            converged ==> r == Progress::Converged(final(self).iteration) && final(self).finished,
            !converged && final(self).iteration < final(self).max_iter ==> r == Progress::Continue
                && !final(self).finished,
            !converged && final(self).iteration == final(self).max_iter ==> r == Progress::Failed(
                exhausted_error(final(self).solver),
            ) && final(self).finished,
    {
        self.iteration = self.iteration + 1;
        if converged {
            self.finished = true;
            Progress::Converged(self.iteration)
        } else if self.iteration == self.max_iter {
            self.finished = true;
            Progress::Failed(self.exhausted_error())
        } else {
            Progress::Continue
        }
    }
}

} // verus!
