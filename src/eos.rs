use vstd::prelude::*;
use crate::errors::EosError;

verus! {

/// Every entry of `list` names one of the first `n` components.
pub open spec fn valid_component_list(list: Seq<usize>, n: usize) -> bool {
    forall|k: int| 0 <= k < list.len() ==> list[k] < n
}

/// Component bookkeeping of an ideal gas model.
pub trait IdealGas: Sized {
    /// Number of components the model describes.
    spec fn spec_components(&self) -> usize;

    /// Returns the number of components.
    fn components(&self) -> (r: usize)
        ensures
            r == self.spec_components(),
    ;

    /// Returns the model restricted to the components in `component_list`.
    fn subset(&self, component_list: &[usize]) -> (r: Self)
        requires
            valid_component_list(component_list@, self.spec_components()),
        ensures
            r.spec_components() == component_list@.len(),
    ;
}

/// Component bookkeeping of a residual Helmholtz energy model.
pub trait Residual: Sized {
    /// Number of components the model describes.
    spec fn spec_components(&self) -> usize;

    /// Returns the number of components.
    fn components(&self) -> (r: usize)
        ensures
            r == self.spec_components(),
    ;

    /// Returns the model restricted to the components in `component_list`.
    fn subset(&self, component_list: &[usize]) -> (r: Self)
        requires
            valid_component_list(component_list@, self.spec_components()),
        ensures
            r.spec_components() == component_list@.len(),
    ;
}

/// De Broglie wavelength that is constant (unity); the field is the number of components.
#[derive(Clone, Copy, Debug, PartialEq, Eq, Structural)]
pub struct DefaultDeBroglie(pub usize);

/// Ideal gas model with a constant de Broglie wavelength.
#[derive(Clone, Copy, Debug, PartialEq, Eq, Structural)]
pub struct DefaultIdealGas {
    pub components: usize,
}

impl DefaultIdealGas {
    /// The default ideal gas for `components` components.
    pub fn new(components: usize) -> (r: DefaultIdealGas)
        ensures
            r.components == components,
    {
        DefaultIdealGas { components }
    }

    /// The wavelength model, sized to the components.
    pub fn de_broglie_wavelength(&self) -> (r: DefaultDeBroglie)
        ensures
            r.0 == self.components,
    {
        DefaultDeBroglie(self.components)
    }
}

impl IdealGas for DefaultIdealGas {
    open spec fn spec_components(&self) -> usize {
        self.components
    }

    fn components(&self) -> (r: usize) {
        self.components
    }

    fn subset(&self, component_list: &[usize]) -> (r: Self) {
        DefaultIdealGas::new(component_list.len())
    }
}

/// The ideal gas models that an equation of state can be built from.
#[derive(Clone, Copy, Debug, PartialEq, Eq, Structural)]
pub enum IdealGasModel {
    DefaultIdealGas(DefaultIdealGas),
}

impl IdealGas for IdealGasModel {
    open spec fn spec_components(&self) -> usize {
        match self {
            IdealGasModel::DefaultIdealGas(m) => m.spec_components(),
        }
    }

    fn components(&self) -> (r: usize) {
        match self {
            IdealGasModel::DefaultIdealGas(m) => m.components(),
        }
    }

    fn subset(&self, component_list: &[usize]) -> (r: Self) {
        match self {
            IdealGasModel::DefaultIdealGas(m) => IdealGasModel::DefaultIdealGas(
                m.subset(component_list),
            ),
        }
    }
}

/// Length of a mole vector as passed by a caller; none stands for one component.
pub open spec fn given_len(moles_len: Option<usize>) -> usize {
    match moles_len {
        Some(l) => l,
        None => 1,
    }
}

/// Checks the length of a caller's mole vector against `components`.
/// A missing vector is accepted for a pure component only; the result is
/// the length of the mole vector to use.
pub fn check_moles_len(components: usize, moles_len: Option<usize>) -> (r: Result<usize, EosError>)
    ensures
        components == given_len(moles_len) ==> r == Ok::<usize, EosError>(given_len(moles_len)),
        components != given_len(moles_len) ==> r == Err::<usize, EosError>(
            EosError::IncompatibleComponents(components, given_len(moles_len)),
        ),
{
    let l: usize = match moles_len {
        Some(l) => l,
        None => 1,
    };
    if components == l {
        Ok(l)
    } else {
        Err(EosError::IncompatibleComponents(components, l))
    }
}

/// An equation of state: an ideal gas part and a residual part.
pub struct EquationOfState<I: IdealGas, R: Residual> {
    pub ideal_gas: I,
    pub residual: R,
}

impl<R: Residual> EquationOfState<DefaultIdealGas, R> {
    /// Pairs `residual` with the default ideal gas of the same size.
    pub fn new_default_ideal_gas(residual: R) -> (r: Self)
        ensures
            r.wf(),
            r.residual == residual,
            r.ideal_gas.components == residual.spec_components(),
    {
        let components = residual.components();
        EquationOfState { ideal_gas: DefaultIdealGas::new(components), residual }
    }
}

impl<I: IdealGas, R: Residual> EquationOfState<I, R> {
    /// Both parts describe the same components.
    pub open spec fn wf(&self) -> bool {
        self.ideal_gas.spec_components() == self.residual.spec_components()
    }

    /// Number of components of the equation of state.
    pub open spec fn spec_components(&self) -> usize {
        self.residual.spec_components()
    }

    /// Builds an equation of state from parts with the same number of
    /// components; otherwise reports both counts (residual first).
    pub fn new(ideal_gas: I, residual: R) -> (r: Result<Self, EosError>)
        ensures
            ideal_gas.spec_components() == residual.spec_components() ==> (r matches Ok(e) && e.wf()
                && e.ideal_gas == ideal_gas && e.residual == residual),
            ideal_gas.spec_components() != residual.spec_components() ==> r == Err::<Self, EosError>(
                EosError::IncompatibleComponents(
                    residual.spec_components(),
                    ideal_gas.spec_components(),
                ),
            ),
    {
        let components = residual.components();
        let n_ideal_gas = ideal_gas.components();
        if components == n_ideal_gas {
            Ok(EquationOfState { ideal_gas, residual })
        } else {
            Err(EosError::IncompatibleComponents(components, n_ideal_gas))
        }
    }

    /// Returns the number of components.
    pub fn components(&self) -> (r: usize)
        ensures
            r == self.spec_components(),
    {
        self.residual.components()
    }

    /// Returns the equation of state restricted to the components in `component_list`.
    pub fn subset(&self, component_list: &[usize]) -> (r: Self)
        requires
            self.wf(),
            valid_component_list(component_list@, self.spec_components()),
        ensures
            r.wf(),
            r.spec_components() == component_list@.len(),
    {
        let ideal_gas = self.ideal_gas.subset(component_list);
        let residual = self.residual.subset(component_list);
        EquationOfState { ideal_gas, residual }
    }

    /// Checks the length of a caller's mole vector against the components.
    /// A missing vector is accepted for a pure component only; the result is
    /// the length of the mole vector to use.
    pub fn validate_moles(&self, moles_len: Option<usize>) -> (r: Result<usize, EosError>)
        ensures
            self.spec_components() == given_len(moles_len) ==> r == Ok::<usize, EosError>(
                given_len(moles_len),
            ),
            self.spec_components() != given_len(moles_len) ==> r == Err::<usize, EosError>(
                EosError::IncompatibleComponents(self.spec_components(), given_len(moles_len)),
            ),
    {
        check_moles_len(self.components(), moles_len)
    }
}

} // verus!
