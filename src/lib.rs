//! Explicit Runge-Kutta time stepping for one or two coupled scalar states.
//!
//! The engine is generic over the number type (`Scalar`) and over the
//! right-hand side of the equation (`Rhs1`, `Rhs2`). Each of the ten supported
//! methods is a Butcher tableau (`tableau`), evaluated by one shared stepping
//! routine (`stepping`). `ode_solvers` holds the one- and two-variable
//! solvers, whose results are described exactly by spec functions over the
//! number type's operations; `laws` proves properties that those results have.
pub mod scalar;
pub mod tableau;
pub mod rhs;
pub mod stepping;
pub mod ode_solvers;
pub mod laws;

pub use ode_solvers::{ODESolver1, ODESolver2, SolveError};
pub use rhs::{ConstantRate, Rhs1, Rhs2};
pub use scalar::Scalar;
pub use tableau::SolverMethod;
