//! The QAWF integrator: configuration, capacity invariant, and the two
//! decisions of an `integrate` call.
//!
//! QAWF (quadrature, adaptive, weighted, Fourier variant) computes a
//! Fourier integral of f(x)·sin(ωx) or f(x)·cos(ωx) over the semi-infinite
//! interval (lower bound, ∞). The numerics run in the native engine; the
//! application drives it like this, with every decision taken here:
//!
//! 1. [`QAWF::integrate_request`] turns the configuration into the exact
//!    parameter block the native routine is handed, refusing a non-scalar
//!    integrand before any native call.
//! 2. The application bridges the integrand across the foreign boundary,
//!    makes the native call, and re-raises any failure the integrand
//!    itself raised while the native engine was driving it.
//! 3. [`integrate_finish`] turns the native return code and the two output
//!    scalars into a result or a structured error.
//!
//! The native call mutates three natively allocated buffers in place: a
//! main workspace, a cycle workspace, and the oscillatory weight-function
//! table. All three must be sized to one and the same subinterval count,
//! which is also the limit passed to the call: that is [`QAWF::wf`], which
//! every constructor establishes and every builder step preserves.
//! [`QAWF::with_nintervals`] changes capacity atomically: it replaces all
//! three buffers at once, never one of them alone.

use vstd::prelude::*;

use crate::error::{GSLError, GSLIntegrationError, GSL_SUCCESS};
use crate::scalar::{Real, REAL_ONE_BITS, REAL_ZERO_BITS};

verus! {

/// The kind of oscillatory weight function: sin(ωx) or cos(ωx).
#[derive(Clone, Copy, Debug, PartialEq, Eq, Structural)]
pub enum WeightKind {
    /// Weight function sin(ωx).
    Sine,
    /// Weight function cos(ωx).
    Cosine,
}

/// A natively allocated integration workspace, seen from the verified
/// side: scratch memory for up to `nintervals` subintervals. The
/// application owns the native buffer itself and keeps it allocated to
/// exactly this capacity; a capacity change allocates a fresh buffer and
/// releases the old one whole.
#[derive(Clone, Copy, Debug, PartialEq, Eq, Structural)]
pub struct Workspace {
    /// The subinterval capacity the native buffer was allocated with.
    pub nintervals: usize,
}

impl Workspace {
    /// A workspace with room for `nintervals` subintervals.
    pub fn new(nintervals: usize) -> (w: Workspace)
        ensures
            w.nintervals == nintervals,
    {
        Workspace { nintervals }
    }
}

/// A natively allocated table describing the oscillatory weight function,
/// seen from the verified side: the weight kind, the angular frequency ω,
/// the cycle length the table was allocated with, and its subinterval
/// capacity. Ownership follows [`Workspace`].
#[derive(Clone, Copy, Debug, PartialEq, Eq, Structural)]
pub struct QawoTable {
    /// The subinterval capacity the native table was allocated with.
    pub nintervals: usize,
    /// The angular frequency ω of the weight function.
    pub omega: Real,
    /// The cycle length the table was allocated with. The Fourier routine
    /// sets the effective length itself, so the binding leaves this at the
    /// allocation value.
    pub length: Real,
    /// Whether the weight function is sin(ωx) or cos(ωx).
    pub kind: WeightKind,
}

impl QawoTable {
    /// A table for the weight function `kind`(ω x) with room for
    /// `nintervals` subintervals.
    pub fn new(nintervals: usize, omega: Real, length: Real, kind: WeightKind) -> (t: QawoTable)
        ensures
            t == (QawoTable { nintervals, omega, length, kind }),
    {
        QawoTable { nintervals, omega, length, kind }
    }

    /// The same weight function in a fresh table sized to `nintervals`
    /// subintervals.
    pub fn with_nintervals(self, nintervals: usize) -> (t: QawoTable)
        ensures
            t == (QawoTable { nintervals, ..self }),
    {
        QawoTable { nintervals, ..self }
    }

    /// Changes the weight function to sin(`omega` x).
    pub fn with_sin(self, omega: Real) -> (t: QawoTable)
        ensures
            t == (QawoTable { omega, kind: WeightKind::Sine, ..self }),
    {
        QawoTable { omega, kind: WeightKind::Sine, ..self }
    }

    /// Changes the weight function to cos(`omega` x).
    pub fn with_cos(self, omega: Real) -> (t: QawoTable)
        ensures
            t == (QawoTable { omega, kind: WeightKind::Cosine, ..self }),
    {
        QawoTable { omega, kind: WeightKind::Cosine, ..self }
    }
}

/// The parameter block one native QAWF call is handed: everything the
/// routine reads besides the bridged integrand, laid out as plain values.
#[derive(Clone, Copy, Debug, PartialEq, Eq, Structural)]
pub struct IntegrationRequest {
    /// The lower bound of the semi-infinite interval (lower bound, ∞).
    pub lower_bound: Real,
    /// The requested absolute error tolerance.
    pub epsabs: Real,
    /// The maximum number of subintervals the call may use.
    pub limit: usize,
    /// The capacity of the main workspace handed to the call.
    pub wkspc_nintervals: usize,
    /// The capacity of the cycle workspace handed to the call.
    pub cycle_nintervals: usize,
    /// The capacity of the weight-function table handed to the call.
    pub table_nintervals: usize,
    /// The angular frequency ω of the weight function.
    pub omega: Real,
    /// Whether the weight function is sin(ωx) or cos(ωx).
    pub kind: WeightKind,
}

/// What one native QAWF call came back with: its return code and the two
/// scalars it wrote, the integral estimate and the absolute error
/// estimate.
#[derive(Clone, Copy, Debug, PartialEq, Eq, Structural)]
pub struct NativeOutcome {
    /// The native return code.
    pub retcode: i32,
    /// The integral estimate the call wrote.
    pub value: Real,
    /// The absolute error estimate the call wrote.
    pub error: Real,
}

/// A successful integration: the estimated value of the integral and the
/// estimated absolute error, both passed through verbatim from the native
/// call.
#[derive(Clone, Copy, Debug, PartialEq, Eq, Structural)]
pub struct IntegrationResult {
    /// The estimated value of the integral.
    pub value: Real,
    /// The estimated absolute error.
    pub error: Real,
}

/// Quadrature Adaptive Weighted integration for Fourier integrals:
/// computes a Fourier integral over a semi-infinite interval. The
/// integral is computed over subintervals covering an odd number of
/// periods, so that the contributions alternate in sign, and the sum of
/// the sequence is accelerated with the epsilon-algorithm — all inside the
/// native engine. This type holds the configuration the engine is driven
/// with.
#[derive(Clone, Copy, Debug, PartialEq, Eq, Structural)]
pub struct QAWF {
    /// The lower bound of the integration interval (lower bound, ∞).
    pub lower_bound: Real,
    /// The main workspace.
    pub wkspc: Workspace,
    /// The cycle workspace.
    pub cycle_wkspc: Workspace,
    /// The oscillatory weight-function table.
    pub table: QawoTable,
}

impl QAWF {
    /// Well-formedness: the two workspaces and the table are sized to one
    /// and the same subinterval count, the count a native call is passed
    /// as its limit.
    pub open spec fn wf(self) -> bool {
        &&& self.wkspc.nintervals == self.table.nintervals
        &&& self.cycle_wkspc.nintervals == self.table.nintervals
    }

    /// Creates a new QAWF with enough memory for `nintervals`
    /// subintervals, integrating over (0, ∞) with the weight function
    /// sin(x). To change the range or the weight function, see
    /// [`QAWF::with_bound`], [`QAWF::with_sin`] and [`QAWF::with_cos`].
    pub fn new(nintervals: usize) -> (q: QAWF)
        ensures
            q.wf(),
            q.lower_bound.bits == REAL_ZERO_BITS,
            q.wkspc.nintervals == nintervals,
            q.cycle_wkspc.nintervals == nintervals,
            q.table == (QawoTable {
                nintervals,
                omega: (Real { bits: REAL_ONE_BITS }),
                length: (Real { bits: REAL_ONE_BITS }),
                kind: WeightKind::Sine,
            }),
    {
        QAWF {
            lower_bound: Real::zero(),
            wkspc: Workspace::new(nintervals),
            cycle_wkspc: Workspace::new(nintervals),
            table: QawoTable::new(nintervals, Real::one(), Real::one(), WeightKind::Sine),
        }
    }

    /// Discards the old workspaces and table and allocates new ones with
    /// enough memory for `nintervals` subintervals. The replacement is
    /// atomic: all three capacities change together, so the result is
    /// well formed whatever the receiver was.
    pub fn with_nintervals(self, nintervals: usize) -> (q: QAWF)
        ensures
            q.wf(),
            q.wkspc.nintervals == nintervals,
            q.cycle_wkspc.nintervals == nintervals,
            q.table == (QawoTable { nintervals, ..self.table }),
            q.lower_bound == self.lower_bound,
    {
        QAWF {
            wkspc: Workspace::new(nintervals),
            cycle_wkspc: Workspace::new(nintervals),
            table: self.table.with_nintervals(nintervals),
            ..self
        }
    }

    /// Updates the integration range to (`lower_bound`, ∞).
    pub fn with_bound(self, lower_bound: Real) -> (q: QAWF)
        ensures
            q == (QAWF { lower_bound, ..self }),
    {
        QAWF { lower_bound, ..self }
    }

    /// Updates the weight function to sin(`omega` x).
    pub fn with_sin(self, omega: Real) -> (q: QAWF)
        ensures
            q == (QAWF {
                table: (QawoTable { omega, kind: WeightKind::Sine, ..self.table }),
                ..self
            }),
            q.table.kind is Sine,
            q.table.omega == omega,
            q.table.nintervals == self.table.nintervals,
    {
        QAWF { table: self.table.with_sin(omega), ..self }
    }

    /// Updates the weight function to cos(`omega` x).
    pub fn with_cos(self, omega: Real) -> (q: QAWF)
        ensures
            q == (QAWF {
                table: (QawoTable { omega, kind: WeightKind::Cosine, ..self.table }),
                ..self
            }),
            q.table.kind is Cosine,
            q.table.omega == omega,
            q.table.nintervals == self.table.nintervals,
    {
        QAWF { table: self.table.with_cos(omega), ..self }
    }

    /// The first half of an `integrate` call: the parameter block the
    /// native routine is to be handed, assembled from the configuration
    /// and the requested absolute tolerance `epsabs`.
    ///
    /// The native routine evaluates integrands of one scalar to one
    /// scalar. `input_dim` and `output_dim` say how many scalars the
    /// caller's integrand consumes and produces; any other shape is
    /// refused here, before the foreign boundary is touched. On a well
    /// formed receiver every capacity in the request equals the limit
    /// passed to the call.
    pub fn integrate_request(&self, input_dim: usize, output_dim: usize, epsabs: Real) -> (r:
        Result<IntegrationRequest, GSLIntegrationError>)
        ensures
            r is Ok <==> (input_dim == 1 && output_dim == 1),
            r matches Ok(req) ==> req == (IntegrationRequest {
                lower_bound: self.lower_bound,
                epsabs,
                limit: self.wkspc.nintervals,
                wkspc_nintervals: self.wkspc.nintervals,
                cycle_nintervals: self.cycle_wkspc.nintervals,
                table_nintervals: self.table.nintervals,
                omega: self.table.omega,
                kind: self.table.kind,
            }),
            self.wf() ==> (r matches Ok(req) ==> req.wkspc_nintervals == req.limit
                && req.cycle_nintervals == req.limit && req.table_nintervals == req.limit),
            r matches Err(e) ==> e == (GSLIntegrationError::InvalidIntegrand {
                input_dim,
                output_dim,
            }),
    {
        if input_dim == 1 && output_dim == 1 {
            Ok(
                IntegrationRequest {
                    lower_bound: self.lower_bound,
                    epsabs,
                    limit: self.wkspc.nintervals,
                    wkspc_nintervals: self.wkspc.nintervals,
                    cycle_nintervals: self.cycle_wkspc.nintervals,
                    table_nintervals: self.table.nintervals,
                    omega: self.table.omega,
                    kind: self.table.kind,
                },
            )
        } else {
            Err(GSLIntegrationError::InvalidIntegrand { input_dim, output_dim })
        }
    }
}

/// The second half of an `integrate` call: translates what the native
/// routine came back with. A success code passes the two output scalars
/// through verbatim as an [`IntegrationResult`]; any other code becomes an
/// error carrying that code. This runs only after the application has
/// re-raised a failure the integrand itself raised, so an outcome that
/// reaches it is the native routine's own verdict.
pub fn integrate_finish(outcome: NativeOutcome) -> (r: Result<
    IntegrationResult,
    GSLIntegrationError,
>)
    ensures
        outcome.retcode == GSL_SUCCESS ==> r == Ok::<IntegrationResult, GSLIntegrationError>(
            IntegrationResult { value: outcome.value, error: outcome.error },
        ),
        outcome.retcode != GSL_SUCCESS ==> r == Err::<IntegrationResult, GSLIntegrationError>(
            GSLIntegrationError::GSLError(
                crate::error::spec_error_of_code(outcome.retcode as int),
            ),
        ),
        r is Ok <==> outcome.retcode == GSL_SUCCESS,
{
    if outcome.retcode != GSL_SUCCESS {
        Err(GSLIntegrationError::GSLError(GSLError::from_code(outcome.retcode)))
    } else {
        Ok(IntegrationResult { value: outcome.value, error: outcome.error })
    }
}

} // verus!
