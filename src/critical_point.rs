use vstd::prelude::*;
use crate::errors::{EosError, Stage};

verus! {

/// Starting temperature of one attempt of the pure critical point search.
#[derive(Clone, Copy, Debug, PartialEq, Eq, Structural)]
pub enum TrialTemperature {
    /// The temperature the caller supplied.
    Initial,
    /// A fixed temperature, in reference temperature units.
    Reference(u64),
}

/// The attempts of the search, in the order they are made.
pub open spec fn trial_schedule(initial_given: bool) -> Seq<TrialTemperature> {
    if initial_given {
        seq![TrialTemperature::Initial]
    } else {
        seq![
            TrialTemperature::Reference(300),
            TrialTemperature::Reference(700),
            TrialTemperature::Reference(500),
        ]
    }
}

/// What the driver of the pure critical point search does next.
#[derive(Clone, Copy, Debug, PartialEq, Eq, Structural)]
pub enum SearchAction {
    /// Run the solver from this starting temperature.
    Solve(TrialTemperature),
    /// The attempt just made is the result: its success, or, for a caller's
    /// own temperature, its failure.
    Finish,
    /// Every trial temperature failed: report this failure.
    Fail(EosError),
}

/// Retry policy of the pure critical point: a caller's temperature is tried
/// alone and its outcome is final; otherwise fixed trial temperatures are
/// tried in order and the first success ends the search.
#[derive(Clone, Copy, Debug)]
pub struct CriticalPointSearch {
    pub initial_given: bool,
    /// Index in the schedule of the attempt in progress.
    pub attempt: usize,
    pub finished: bool,
}

impl CriticalPointSearch {
    /// The attempt in progress is one of the schedule.
    pub open spec fn wf(&self) -> bool {
        self.attempt < trial_schedule(self.initial_given).len()
    }

    /// A search whose first attempt is about to start.
    pub fn new(initial_given: bool) -> (r: CriticalPointSearch)
        ensures
            r.wf(),
            r.initial_given == initial_given,
            r.attempt == 0,
            !r.finished,
    {
        CriticalPointSearch { initial_given, attempt: 0, finished: false }
    }

    /// Starting temperature of the attempt in progress.
    pub fn trial(&self) -> (r: TrialTemperature)
        requires
            self.wf(),
        ensures
            r == trial_schedule(self.initial_given)[self.attempt as int],
    {
        if self.initial_given {
            TrialTemperature::Initial
        } else if self.attempt == 0 {
            TrialTemperature::Reference(300)
        } else if self.attempt == 1 {
            TrialTemperature::Reference(700)
        } else {
            TrialTemperature::Reference(500)
        }
    }

    /// Records whether the attempt in progress converged and says what follows.
    pub fn record_attempt(&mut self, converged: bool) -> (r: SearchAction)
        requires
            old(self).wf(),
            !old(self).finished,
        ensures
            final(self).wf(),
            final(self).initial_given == old(self).initial_given,
            converged ==> r == SearchAction::Finish && final(self).finished
                && final(self).attempt == old(self).attempt,
            !converged && old(self).initial_given ==> r == SearchAction::Finish
                && final(self).finished,
            !converged && !old(self).initial_given && old(self).attempt + 1 < trial_schedule(
                false,
            ).len() ==> r == SearchAction::Solve(trial_schedule(false)[old(self).attempt + 1])
                && !final(self).finished && final(self).attempt == old(self).attempt + 1,
            !converged && !old(self).initial_given && old(self).attempt + 1 == trial_schedule(
                false,
            ).len() ==> r == SearchAction::Fail(EosError::NotConverged(Stage::CriticalPoint))
                && final(self).finished,
    {
        if converged || self.initial_given {
            self.finished = true;
            SearchAction::Finish
        } else if self.attempt + 1 < 3 {
            self.attempt = self.attempt + 1;
            SearchAction::Solve(self.trial())
        } else {
            self.finished = true;
            SearchAction::Fail(EosError::NotConverged(Stage::CriticalPoint))
        }
    }
}

} // verus!
