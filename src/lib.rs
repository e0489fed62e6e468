//! Forward-mode automatic differentiation of second order.
//!
//! An [`Ad`] value carries a function's value, gradient and Hessian with
//! respect to `N` independent variables. Every elementary operation
//! propagates all three by the chain rule; the sparse assembly layer scatters
//! many small local results into global accumulators.
//!
//! The engine is generic over its number type, any type that implements
//! [`Real`]. Each contract states exactly which arithmetic the result is
//! made of, over the models that [`Real`] gives each operation: the chain
//! rule, the product and quotient rules, the cofactor expansion of the
//! determinant and the scatter of the assembly are proved as written, for
//! every number type. Domain violations (a square root of a negative
//! number, a division by zero, ...) are reported as [`AdError::Domain`]
//! exactly when they occur, never as a silent NaN.

pub mod ad;
pub mod laws;
pub mod make;
pub mod matrix;
pub mod ops;
pub mod scalar;
pub mod sparse;
pub mod val;

pub use ad::{Ad, AdError, AdModel};
pub use matrix::GetValue;
pub use scalar::Real;
pub use sparse::{ComputedObjective, Objective, ObjectiveFunction};
pub use val::Val;
