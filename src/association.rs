use vstd::prelude::*;
use crate::errors::{EosError, Stage};
use crate::numeric::{NumericType, derivative_order};

verus! {

/// Indices, in increasing order, of the entries of `a` that are set.
pub open spec fn associating_indices(a: Seq<bool>) -> Seq<usize>
    decreases a.len(),
{
    if a.len() == 0 {
        Seq::empty()
    } else {
        let prev = associating_indices(a.drop_last());
        if a.last() {
            prev.push((a.len() - 1) as usize)
        } else {
            prev
        }
    }
}

/// The selected indices are in range, strictly increasing, and pick exactly
/// the entries that are set.
pub proof fn lemma_associating_indices(a: Seq<bool>)
    requires
        a.len() <= usize::MAX,
    ensures
        forall|k: int|
            0 <= k < associating_indices(a).len() ==> associating_indices(a)[k] < a.len()
                && a[associating_indices(a)[k] as int],
        forall|k: int, l: int|
            0 <= k < l < associating_indices(a).len() ==> associating_indices(a)[k]
                < associating_indices(a)[l],
        forall|i: int|
            0 <= i < a.len() && a[i] ==> associating_indices(a).contains(i as usize),
    decreases a.len(),
{
    if a.len() > 0 {
        let p = a.drop_last();
        lemma_associating_indices(p);
        let prev = associating_indices(p);
        assert forall|i: int| 0 <= i < a.len() && a[i] implies associating_indices(a).contains(
            i as usize,
        ) by {
            if i < a.len() - 1 {
                assert(p[i] == a[i]);
                let k = choose|k: int| 0 <= k < prev.len() && prev[k] == i as usize;
                assert(associating_indices(a)[k] == i as usize);
            } else {
                assert(associating_indices(a).last() == i as usize);
            }
        }
        assert forall|k: int| 0 <= k < associating_indices(a).len() implies associating_indices(a)[k]
            < a.len() && a[associating_indices(a)[k] as int] by {
            if k < prev.len() {
                assert(p[prev[k] as int] == a[prev[k] as int]);
            }
        }
    }
}

/// Which associating components there are, and where their densities are found.
#[derive(Clone, Debug)]
pub struct AssociationParameters {
    /// For each record, the component whose density it uses.
    pub component_index: Vec<usize>,
    /// Indices of the records with association sites, in increasing order.
    pub assoc_comp: Vec<usize>,
}

/// How the association contribution is evaluated.
#[derive(Clone, Copy, Debug, PartialEq, Eq, Structural)]
pub enum AssociationMode {
    /// Iterative solution of the general cross-association system.
    CrossAssociation,
    /// Closed form for one component with sites of type A and B.
    TwoSiteTypes { component: usize },
    /// Closed form for one component with sites of type A only.
    OneSiteType { component: usize },
}

impl AssociationParameters {
    /// Every associating record points into the component index.
    pub open spec fn wf(&self) -> bool {
        forall|k: int|
            0 <= k < self.assoc_comp@.len() ==> self.assoc_comp@[k] < self.component_index@.len()
    }

    /// Selects the records that have association sites (`associating[i]`, both
    /// association parameters positive) and takes the component index given,
    /// or maps each record to the component of the same index.
    pub fn new(associating: &[bool], component_index: Option<Vec<usize>>) -> (r: Self)
        requires
            component_index matches Some(c) ==> forall|k: int|
                0 <= k < associating_indices(associating@).len() ==> associating_indices(
                    associating@,
                )[k] < c@.len(),
        ensures
            r.wf(),
            r.assoc_comp@ == associating_indices(associating@),
            component_index matches Some(c) ==> r.component_index@ == c@,
            component_index is None ==> r.component_index@.len() == associating@.len()
                && forall|i: int| 0 <= i < associating@.len() ==> r.component_index@[i] == i,
    {
        let n = associating.len();
        let mut assoc_comp: Vec<usize> = Vec::new();
        let mut i: usize = 0;
        while i < n
            invariant
                n == associating@.len(),
                i <= n,
                assoc_comp@ == associating_indices(associating@.subrange(0, i as int)),
            decreases n - i,
        {
            let ghost s = associating@.subrange(0, i as int + 1);
            assert(s.drop_last() =~= associating@.subrange(0, i as int));
            if associating[i] {
                assoc_comp.push(i);
            }
            i = i + 1;
        }
        assert(associating@.subrange(0, n as int) =~= associating@);
        let component_index = match component_index {
            Some(c) => c,
            None => {
                let mut c: Vec<usize> = Vec::new();
                let mut j: usize = 0;
                while j < n
                    invariant
                        j <= n,
                        c@.len() == j,
                        forall|k: int| 0 <= k < j ==> c@[k] == k,
                    decreases n - j,
                {
                    c.push(j);
                    j = j + 1;
                }
                c
            },
        };
        proof {
            lemma_associating_indices(associating@);
        }
        AssociationParameters { component_index, assoc_comp }
    }

    /// For each associating record, the index of the density it reads.
    pub fn density_indices(&self) -> (r: Vec<usize>)
        requires
            self.wf(),
        ensures
            r@.len() == self.assoc_comp@.len(),
            forall|k: int|
                0 <= k < r@.len() ==> r@[k] == self.component_index@[self.assoc_comp@[k] as int],
    {
        let mut r: Vec<usize> = Vec::new();
        let mut k: usize = 0;
        while k < self.assoc_comp.len()
            invariant
                self.wf(),
                k <= self.assoc_comp@.len(),
                r@.len() == k,
                forall|l: int|
                    0 <= l < k ==> r@[l] == self.component_index@[self.assoc_comp@[l] as int],
            decreases self.assoc_comp@.len() - k,
        {
            r.push(self.component_index[self.assoc_comp[k]]);
            k = k + 1;
        }
        r
    }

    /// The closed form serves a single associating record unless cross
    /// association is forced; everything else goes to the general solver.
    pub fn mode(&self, force_cross_association: bool, has_b_sites: bool) -> (r: AssociationMode)
        requires
            self.wf(),
        ensures
            (self.assoc_comp@.len() != 1 || force_cross_association) ==> r
                == AssociationMode::CrossAssociation,
            (self.assoc_comp@.len() == 1 && !force_cross_association && has_b_sites) ==> r
                == (AssociationMode::TwoSiteTypes {
                component: self.component_index@[self.assoc_comp@[0] as int],
            }),
            (self.assoc_comp@.len() == 1 && !force_cross_association && !has_b_sites) ==> r
                == (AssociationMode::OneSiteType {
                component: self.component_index@[self.assoc_comp@[0] as int],
            }),
    {
        if self.assoc_comp.len() != 1 || force_cross_association {
            AssociationMode::CrossAssociation
        } else {
            let component = self.component_index[self.assoc_comp[0]];
            if has_b_sites {
                AssociationMode::TwoSiteTypes { component }
            } else {
                AssociationMode::OneSiteType { component }
            }
        }
    }
}

/// Progress of one cross-association solve.
#[derive(Clone, Copy, Debug, PartialEq, Eq, Structural)]
pub enum SolvePhase {
    /// Nothing has been decided yet.
    Idle,
    /// Newton steps on the real parts of all inputs.
    Converging,
    /// Extra Newton steps with derivative-carrying inputs, seeded at the real solution.
    Propagating,
    /// The solve has ended.
    Done,
}

/// What the driver of a cross-association solve reports.
#[derive(Clone, Copy, Debug, PartialEq, Eq, Structural)]
pub enum SolveEvent {
    /// The solve begins; the total associating density is (or is not) numerically zero.
    Start { density_negligible: bool },
    /// A real-part Newton step was taken; its gradient norm did (or did not) meet the tolerance.
    RealStep { converged: bool },
    /// A derivative-carrying Newton step was taken.
    DerivativeStep,
}

/// What the driver of a cross-association solve does next.
#[derive(Clone, Copy, Debug, PartialEq, Eq, Structural)]
pub enum SolveAction {
    /// Return a zero contribution and reset the warm start to the neutral fraction.
    ReturnZero,
    /// Take a Newton step on the real parts.
    RealStep,
    /// Take a Newton step with derivative-carrying inputs.
    DerivativeStep,
    /// Evaluate the energy from the fractions and keep the real solution as warm start.
    Evaluate,
    /// Stop with this failure.
    Fail(EosError),
}

/// Control state of one cross-association solve.
#[derive(Clone, Copy, Debug, PartialEq, Eq, Structural)]
pub struct CrossAssociationSolve {
    pub phase: SolvePhase,
    pub max_iter: usize,
    pub nderiv: usize,
    pub real_steps: usize,
    pub derivative_steps: usize,
}

/// Whether `e` is an event the driver can report in phase `p`.
pub open spec fn event_fits(p: SolvePhase, e: SolveEvent) -> bool {
    match e {
        SolveEvent::Start { .. } => p == SolvePhase::Idle,
        SolveEvent::RealStep { .. } => p == SolvePhase::Converging,
        SolveEvent::DerivativeStep => p == SolvePhase::Propagating,
    }
}

/// The transition of a solve on an event: the next state and the action.
pub open spec fn solve_transition(s: CrossAssociationSolve, e: SolveEvent) -> (
    CrossAssociationSolve,
    SolveAction,
) {
    let not_converged = SolveAction::Fail(EosError::NotConverged(Stage::CrossAssociation));
    match e {
        SolveEvent::Start { density_negligible } => {
            if density_negligible {
                (CrossAssociationSolve { phase: SolvePhase::Done, ..s }, SolveAction::ReturnZero)
            } else if s.max_iter == 0 {
                (CrossAssociationSolve { phase: SolvePhase::Done, ..s }, not_converged)
            } else {
                (
                    CrossAssociationSolve { phase: SolvePhase::Converging, ..s },
                    SolveAction::RealStep,
                )
            }
        },
        SolveEvent::RealStep { converged } => {
            let t = CrossAssociationSolve { real_steps: (s.real_steps + 1) as usize, ..s };
            if converged {
                if s.nderiv == 0 {
                    (CrossAssociationSolve { phase: SolvePhase::Done, ..t }, SolveAction::Evaluate)
                } else {
                    (
                        CrossAssociationSolve { phase: SolvePhase::Propagating, ..t },
                        SolveAction::DerivativeStep,
                    )
                }
            } else if t.real_steps == s.max_iter {
                (CrossAssociationSolve { phase: SolvePhase::Done, ..t }, not_converged)
            } else {
                (t, SolveAction::RealStep)
            }
        },
        SolveEvent::DerivativeStep => {
            let t = CrossAssociationSolve {
                derivative_steps: (s.derivative_steps + 1) as usize,
                ..s
            };
            if t.derivative_steps == s.nderiv {
                (CrossAssociationSolve { phase: SolvePhase::Done, ..t }, SolveAction::Evaluate)
            } else {
                (t, SolveAction::DerivativeStep)
            }
        },
    }
}

impl CrossAssociationSolve {
    /// Step counts stay within the real budget and the derivative order, and
    /// each phase has the counts that lead to it.
    pub open spec fn wf(&self) -> bool {
        &&& self.real_steps <= self.max_iter
        &&& self.derivative_steps <= self.nderiv
        &&& self.phase == SolvePhase::Idle ==> self.real_steps == 0 && self.derivative_steps == 0
        &&& self.phase == SolvePhase::Converging ==> self.real_steps < self.max_iter
            && self.derivative_steps == 0
        &&& self.phase == SolvePhase::Propagating ==> self.derivative_steps < self.nderiv
            && 1 <= self.real_steps
    }

    /// A solve that has not started, with `max_iter` real steps allowed and as
    /// many derivative steps as the derivative order of `numeric`.
    pub fn new(max_iter: usize, numeric: NumericType) -> (r: CrossAssociationSolve)
        ensures
            r.wf(),
            r.phase == SolvePhase::Idle,
            r.max_iter == max_iter,
            r.nderiv == derivative_order(numeric),
            r.real_steps == 0,
            r.derivative_steps == 0,
    {
        CrossAssociationSolve {
            phase: SolvePhase::Idle,
            max_iter,
            nderiv: numeric.derivative_order(),
            real_steps: 0,
            derivative_steps: 0,
        }
    }

    /// Advances the solve on the event the driver reports.
    pub fn next(&mut self, event: SolveEvent) -> (r: SolveAction)
        requires
            old(self).wf(),
            event_fits(old(self).phase, event),
        ensures
            final(self).wf(),
            (*final(self), r) == solve_transition(*old(self), event),
    {
        match event {
            SolveEvent::Start { density_negligible } => {
                if density_negligible {
                    self.phase = SolvePhase::Done;
                    SolveAction::ReturnZero
                } else if self.max_iter == 0 {
                    self.phase = SolvePhase::Done;
                    SolveAction::Fail(EosError::NotConverged(Stage::CrossAssociation))
                } else {
                    self.phase = SolvePhase::Converging;
                    SolveAction::RealStep
                }
            },
            SolveEvent::RealStep { converged } => {
                self.real_steps = self.real_steps + 1;
                if converged {
                    if self.nderiv == 0 {
                        self.phase = SolvePhase::Done;
                        SolveAction::Evaluate
                    } else {
                        self.phase = SolvePhase::Propagating;
                        SolveAction::DerivativeStep
                    }
                } else if self.real_steps == self.max_iter {
                    self.phase = SolvePhase::Done;
                    SolveAction::Fail(EosError::NotConverged(Stage::CrossAssociation))
                } else {
                    SolveAction::RealStep
                }
            },
            SolveEvent::DerivativeStep => {
                self.derivative_steps = self.derivative_steps + 1;
                if self.derivative_steps == self.nderiv {
                    self.phase = SolvePhase::Done;
                    SolveAction::Evaluate
                } else {
                    SolveAction::DerivativeStep
                }
            },
        }
    }
}

/// With a numerically zero associating density, a fresh solve returns a zero
/// contribution at once and ends without any Newton step.
pub proof fn lemma_negligible_density_skips_newton(s: CrossAssociationSolve)
    requires
        s.wf(),
        s.phase == SolvePhase::Idle,
    ensures
        solve_transition(s, SolveEvent::Start { density_negligible: true }).1
            == SolveAction::ReturnZero,
        solve_transition(s, SolveEvent::Start { density_negligible: true }).0.phase
            == SolvePhase::Done,
        solve_transition(s, SolveEvent::Start { density_negligible: true }).0.real_steps == 0,
        solve_transition(s, SolveEvent::Start { density_negligible: true }).0.derivative_steps
            == 0,
{
}

/// The energy is evaluated only after the real iteration converged within its
/// budget and exactly as many derivative steps as the derivative order were taken.
pub proof fn lemma_evaluate_after_full_propagation(s: CrossAssociationSolve, e: SolveEvent)
    requires
        s.wf(),
        event_fits(s.phase, e),
        solve_transition(s, e).1 == SolveAction::Evaluate,
    ensures
        solve_transition(s, e).0.derivative_steps == s.nderiv,
        1 <= solve_transition(s, e).0.real_steps <= s.max_iter,
        solve_transition(s, e).0.phase == SolvePhase::Done,
{
}

} // verus!
