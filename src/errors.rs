use vstd::prelude::*;

verus! {

/// Solver stage named by a non-convergence failure.
#[derive(Clone, Copy, Debug, PartialEq, Eq, Structural)]
pub enum Stage {
    CriticalPoint,
    CrossAssociation,
}

/// Failures reported by the solvers and by input validation.
#[derive(Clone, Copy, Debug, PartialEq, Eq, Structural)]
pub enum EosError {
    /// The iteration budget was exhausted without meeting the tolerance.
    NotConverged(Stage),
    /// A spinodal search found no root: the temperature is above the critical one.
    SuperCritical,
    /// The mole vector has the wrong length: (expected, got).
    IncompatibleComponents(usize, usize),
    /// The linear system of a Newton step could not be solved.
    SingularSystem,
}

} // verus!
