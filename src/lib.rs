//! Discrete core of a Helmholtz-energy toolkit: component bookkeeping,
//! the closed set of derivative-carrying numeric types, and the control
//! logic of the Newton-type solvers (critical point, spinodal and
//! cross-association). The floating-point kernels drive these pieces.
pub mod errors;
pub mod numeric;
pub mod options;
pub mod newton;
pub mod critical_point;
pub mod eos;
pub mod association;
pub mod phase_diagram;
