use vstd::prelude::*;

verus! {

/// Derivative structure wrapped around a base scalar.
#[derive(Clone, Copy, Debug, PartialEq, Eq, Structural)]
pub enum Outer {
    /// No extra derivative channel.
    Plain,
    /// One first-derivative channel.
    Dual,
    /// First and second derivative along one direction.
    Dual2,
    /// Two directions with their mixed second derivative.
    HyperDual,
    /// First, second and third derivative along one direction.
    Dual3,
}

/// Base scalar that the outer structure is built on.
#[derive(Clone, Copy, Debug, PartialEq, Eq, Structural)]
pub enum Inner {
    /// A plain real number.
    Real,
    /// A real number with one tangent.
    Dual,
    /// A real number with a gradient of two partials.
    DualVec2,
    /// A real number with a gradient of three partials.
    DualVec3,
}

/// One member of the family of derivative-carrying numeric types.
#[derive(Clone, Copy, Debug, PartialEq, Eq, Structural)]
pub struct NumericType {
    pub outer: Outer,
    pub inner: Inner,
}

/// Highest derivative order that the outer structure adds.
pub open spec fn outer_order(o: Outer) -> nat {
    match o {
        Outer::Plain => 0,
        Outer::Dual => 1,
        Outer::Dual2 => 2,
        Outer::HyperDual => 2,
        Outer::Dual3 => 3,
    }
}

/// Highest derivative order that the base scalar carries.
pub open spec fn inner_order(i: Inner) -> nat {
    match i {
        Inner::Real => 0,
        _ => 1,
    }
}

/// Highest derivative order that a value of type `t` carries.
pub open spec fn derivative_order(t: NumericType) -> nat {
    outer_order(t.outer) + inner_order(t.inner)
}

/// The closed set of types at which every energy contribution can be evaluated.
pub open spec fn supported(t: NumericType) -> bool {
    match t.outer {
        Outer::Plain => t.inner == Inner::Real,
        Outer::Dual => t.inner == Inner::Real || t.inner == Inner::DualVec3,
        Outer::Dual2 => t.inner == Inner::Real,
        Outer::HyperDual => true,
        Outer::Dual3 => true,
    }
}

impl NumericType {
    /// The plain real type.
    pub fn plain_real() -> (r: NumericType)
        ensures
            r.outer == Outer::Plain,
            r.inner == Inner::Real,
            derivative_order(r) == 0,
    {
        NumericType { outer: Outer::Plain, inner: Inner::Real }
    }

    /// Highest derivative order that values of this type carry.
    pub fn derivative_order(&self) -> (r: usize)
        ensures
            r == derivative_order(*self),
    {
        let o: usize = match self.outer {
            Outer::Plain => 0,
            Outer::Dual => 1,
            Outer::Dual2 => 2,
            Outer::HyperDual => 2,
            Outer::Dual3 => 3,
        };
        let i: usize = match self.inner {
            Inner::Real => 0,
            _ => 1,
        };
        o + i
    }

    /// Whether every energy contribution can be evaluated at this type.
    pub fn is_supported(&self) -> (r: bool)
        ensures
            r == supported(*self),
    {
        match self.outer {
            Outer::Plain => matches!(self.inner, Inner::Real),
            Outer::Dual => matches!(self.inner, Inner::Real | Inner::DualVec3),
            Outer::Dual2 => matches!(self.inner, Inner::Real),
            Outer::HyperDual => true,
            Outer::Dual3 => true,
        }
    }
}

} // verus!
