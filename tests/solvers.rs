use feos::critical_point::{CriticalPointSearch, SearchAction, TrialTemperature};
use feos::errors::{EosError, Stage};
use feos::newton::{NewtonLoop, Progress, Solver};
use feos::options::{
    SolverOptions, Verbosity, MAX_ITER_CRIT_POINT, MAX_ITER_CRIT_POINT_BINARY,
    MAX_ITER_CROSS_ASSOC,
};
use feos::phase_diagram::{chunk_ranges, ContinuationSweep, SweepStart};

#[test]
fn trial_temperatures_in_order_then_failure() {
    let mut search = CriticalPointSearch::new(false);
    assert_eq!(search.trial(), TrialTemperature::Reference(300));
    assert_eq!(
        search.record_attempt(false),
        SearchAction::Solve(TrialTemperature::Reference(700))
    );
    assert_eq!(search.trial(), TrialTemperature::Reference(700));
    assert_eq!(
        search.record_attempt(false),
        SearchAction::Solve(TrialTemperature::Reference(500))
    );
    assert_eq!(
        search.record_attempt(false),
        SearchAction::Fail(EosError::NotConverged(Stage::CriticalPoint))
    );
    assert!(search.finished);
}

#[test]
fn first_successful_trial_ends_the_search() {
    let mut search = CriticalPointSearch::new(false);
    assert_eq!(
        search.record_attempt(false),
        SearchAction::Solve(TrialTemperature::Reference(700))
    );
    assert_eq!(search.record_attempt(true), SearchAction::Finish);
    assert!(search.finished);
    assert_eq!(search.trial(), TrialTemperature::Reference(700));
}

#[test]
fn initial_temperature_is_tried_alone() {
    let mut search = CriticalPointSearch::new(true);
    assert_eq!(search.trial(), TrialTemperature::Initial);
    assert_eq!(search.record_attempt(false), SearchAction::Finish);
    assert!(search.finished);
    let mut search = CriticalPointSearch::new(true);
    assert_eq!(search.record_attempt(true), SearchAction::Finish);
}

#[test]
fn newton_loop_converges_on_third_step() {
    let mut l = NewtonLoop::new(Solver::CriticalPoint, MAX_ITER_CRIT_POINT);
    assert!(l.can_step());
    assert_eq!(l.record_step(false), Progress::Continue);
    assert_eq!(l.record_step(false), Progress::Continue);
    assert_eq!(l.record_step(true), Progress::Converged(3));
    assert!(!l.can_step());
}

#[test]
fn newton_loop_budget_errors_per_solver() {
    let cases = [
        (Solver::CriticalPoint, EosError::NotConverged(Stage::CriticalPoint)),
        (Solver::Spinodal, EosError::SuperCritical),
        (
            Solver::CrossAssociation,
            EosError::NotConverged(Stage::CrossAssociation),
        ),
    ];
    for (solver, error) in cases {
        let mut l = NewtonLoop::new(solver, 2);
        assert_eq!(l.record_step(false), Progress::Continue);
        assert_eq!(l.record_step(false), Progress::Failed(error));
        assert!(!l.can_step());
        assert_eq!(l.iteration, 2);
    }
}

#[test]
fn newton_loop_without_budget_takes_no_step() {
    let l = NewtonLoop::new(Solver::Spinodal, 0);
    assert!(!l.can_step());
    assert_eq!(l.exhausted_error(), EosError::SuperCritical);
}

#[test]
fn newton_loop_converging_on_last_allowed_step() {
    let mut l = NewtonLoop::new(Solver::CriticalPoint, 1);
    assert_eq!(l.record_step(true), Progress::Converged(1));
}

#[test]
fn solver_option_defaults() {
    let o = SolverOptions::new();
    assert_eq!(o.max_iter_or(MAX_ITER_CRIT_POINT), 50);
    assert_eq!(o.max_iter_or(MAX_ITER_CRIT_POINT_BINARY), 200);
    assert_eq!(o.max_iter_or(MAX_ITER_CROSS_ASSOC), 50);
    let o = SolverOptions {
        max_iter: Some(7),
        verbosity: Verbosity::Iter,
    };
    assert_eq!(o.max_iter_or(MAX_ITER_CRIT_POINT), 7);
}

#[test]
fn verbosity_levels() {
    assert!(!Verbosity::Silent.logs_result());
    assert!(!Verbosity::Silent.logs_iterations());
    assert!(Verbosity::Result.logs_result());
    assert!(!Verbosity::Result.logs_iterations());
    assert!(Verbosity::Iter.logs_result());
    assert!(Verbosity::Iter.logs_iterations());
}

#[test]
fn chunks_of_a_sweep() {
    assert_eq!(
        chunk_ranges(10, 3),
        vec![(0, 3), (3, 6), (6, 9), (9, 10)]
    );
    assert_eq!(chunk_ranges(6, 3), vec![(0, 3), (3, 6)]);
    assert_eq!(chunk_ranges(2, 5), vec![(0, 2)]);
    assert_eq!(chunk_ranges(0, 4), vec![]);
    assert_eq!(chunk_ranges(3, 1), vec![(0, 1), (1, 2), (2, 3)]);
}

#[test]
fn continuation_warm_starts_after_solved_points() {
    let mut sweep = ContinuationSweep::new(4);
    assert_eq!(sweep.next_point(), Some(SweepStart::Cold(0)));
    sweep.record(true);
    assert_eq!(sweep.next_point(), Some(SweepStart::Warm(1)));
    sweep.record(false);
    assert_eq!(sweep.next_point(), Some(SweepStart::Cold(2)));
    sweep.record(true);
    assert_eq!(sweep.next_point(), Some(SweepStart::Warm(3)));
    sweep.record(true);
    assert_eq!(sweep.next_point(), None);
    assert_eq!(sweep.kept, vec![0, 2, 3]);
}

#[test]
fn empty_sweep_has_no_point() {
    let sweep = ContinuationSweep::new(0);
    assert_eq!(sweep.next_point(), None);
    assert!(sweep.kept.is_empty());
}
