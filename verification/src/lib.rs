//! Verified core of a binding to a native adaptive Fourier-integral
//! quadrature routine (QAWF), which computes integrals of f(x)·sin(ωx) or
//! f(x)·cos(ωx) over a semi-infinite interval.
//!
//! The native engine does the numerics behind a foreign boundary that the
//! surrounding application owns. This crate holds everything the binding
//! decides on its own, stated and proved:
//!
//! - the configuration an integrator carries (interval lower bound, weight
//!   kind and frequency, subinterval capacity) and the builder steps that
//!   change it;
//! - the invariant that the two scratch workspaces and the weight-function
//!   table are always sized to one and the same subinterval count, and that
//!   a capacity change replaces all three at once;
//! - the assembly of a native call request from a configuration, including
//!   the guard that only scalar integrands are handed across the boundary;
//! - the translation of a native return code into a structured result or a
//!   structured error that carries the code verbatim.
//!
//! Scalars cross the boundary untouched: the crate carries each one as the
//! bit pattern of an IEEE 754 double and never interprets it.

pub mod error;
pub mod qawf;
pub mod scalar;
