//! Forward-mode automatic differentiation with dual and hyper-dual numbers.
//!
//! A [`dual::Dual`] carries a value and its first derivative, a
//! [`dual2::Dual2`] a value with its first and second derivative. Both are
//! generic over any [`scalar::Scalar`] and are scalars themselves, so they
//! nest into towers that yield mixed partial derivatives.

pub mod scalar;
pub mod rules;
pub mod dual;
pub mod dual2;
pub mod laws;
pub mod residue;
