//! A damped Newton step for locating the curve parameter closest to a query
//! point, kept inside the curve's parameter domain by clamping (open curves)
//! or by wrapping around (closed curves).
//!
//! Parameters, gradients and Hessians are exact integers in the curve's own
//! parameter units; the damping factor is an exact ratio of two integers.

pub mod domain;
pub mod error;
pub mod newton;
