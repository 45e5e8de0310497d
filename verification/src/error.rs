//! Structured errors for the binding.
//!
//! The native library reports failure through an integer return code drawn
//! from its errno table. The binding surfaces such a code verbatim, as a
//! variant of [`GSLError`] from which the exact code can be read back:
//! [`GSLError::code`] inverts [`GSLError::from_code`], proved in
//! [`lemma_from_code_round_trip`].

use vstd::prelude::*;

verus! {

/// The return code the native library uses for success. Every other code
/// is an error.
pub const GSL_SUCCESS: i32 = 0;

/// An error code of the native library's errno table, one variant per
/// named code. A code outside the table is kept verbatim in `Unknown`.
#[derive(Clone, Copy, Debug, PartialEq, Eq, Structural)]
pub enum GSLError {
    /// Generic failure (code -1).
    Failure,
    /// Iteration has not converged (code -2).
    Continue,
    /// Input domain error (code 1).
    Domain,
    /// Output range error (code 2).
    Range,
    /// Invalid pointer (code 3).
    Fault,
    /// Invalid argument (code 4).
    Invalid,
    /// Generic failure of a library routine (code 5).
    Failed,
    /// Factorization failed (code 6).
    Factorization,
    /// Sanity check failed (code 7).
    Sanity,
    /// Memory allocation failed (code 8).
    NoMemory,
    /// Problem with a user-supplied function (code 9).
    BadFunction,
    /// Iterative process is out of control (code 10).
    RunAway,
    /// Exceeded the maximum number of iterations (code 11).
    MaxIteration,
    /// Division by zero (code 12).
    ZeroDivision,
    /// The user specified an invalid tolerance (code 13).
    BadTolerance,
    /// Failed to reach the specified tolerance (code 14).
    Tolerance,
    /// Underflow (code 15).
    Underflow,
    /// Overflow (code 16).
    Overflow,
    /// Loss of accuracy (code 17).
    Loss,
    /// Failed because of roundoff error (code 18).
    Roundoff,
    /// Lengths are not conformant (code 19).
    BadLength,
    /// Matrix is not square (code 20).
    NotSquare,
    /// Apparent singularity detected (code 21).
    Singularity,
    /// Integral or series is divergent (code 22).
    Divergent,
    /// The requested feature is not supported by the hardware (code 23).
    Unsupported,
    /// The requested feature is not implemented (code 24).
    Unimplemented,
    /// Cache limit exceeded (code 25).
    CacheLimit,
    /// Table limit exceeded (code 26).
    TableLimit,
    /// Iteration is not making progress towards a solution (code 27).
    NoProgress,
    /// Jacobian evaluations are not improving the solution (code 28).
    NoProgressJacobian,
    /// Cannot reach the specified tolerance in F (code 29).
    ToleranceF,
    /// Cannot reach the specified tolerance in X (code 30).
    ToleranceX,
    /// Cannot reach the specified tolerance in the gradient (code 31).
    ToleranceG,
    /// End of file (code 32).
    EndOfFile,
    /// Any code outside the table, carried verbatim.
    Unknown(i32),
}

/// The native code each [`GSLError`] stands for.
pub open spec fn spec_code_of(e: GSLError) -> int {
    match e {
        GSLError::Failure => -1,
        GSLError::Continue => -2,
        GSLError::Domain => 1,
        GSLError::Range => 2,
        GSLError::Fault => 3,
        GSLError::Invalid => 4,
        GSLError::Failed => 5,
        GSLError::Factorization => 6,
        GSLError::Sanity => 7,
        GSLError::NoMemory => 8,
        GSLError::BadFunction => 9,
        GSLError::RunAway => 10,
        GSLError::MaxIteration => 11,
        GSLError::ZeroDivision => 12,
        GSLError::BadTolerance => 13,
        GSLError::Tolerance => 14,
        GSLError::Underflow => 15,
        GSLError::Overflow => 16,
        GSLError::Loss => 17,
        GSLError::Roundoff => 18,
        GSLError::BadLength => 19,
        GSLError::NotSquare => 20,
        GSLError::Singularity => 21,
        GSLError::Divergent => 22,
        GSLError::Unsupported => 23,
        GSLError::Unimplemented => 24,
        GSLError::CacheLimit => 25,
        GSLError::TableLimit => 26,
        GSLError::NoProgress => 27,
        GSLError::NoProgressJacobian => 28,
        GSLError::ToleranceF => 29,
        GSLError::ToleranceX => 30,
        GSLError::ToleranceG => 31,
        GSLError::EndOfFile => 32,
        GSLError::Unknown(c) => c as int,
    }
}

/// The [`GSLError`] a native code maps to: the table's variant where the
/// code is in the table, `Unknown` with the code kept verbatim where it is
/// not.
pub open spec fn spec_error_of_code(code: int) -> GSLError {
    if code == -1 {
        GSLError::Failure
    } else if code == -2 {
        GSLError::Continue
    } else if code == 1 {
        GSLError::Domain
    } else if code == 2 {
        GSLError::Range
    } else if code == 3 {
        GSLError::Fault
    } else if code == 4 {
        GSLError::Invalid
    } else if code == 5 {
        GSLError::Failed
    } else if code == 6 {
        GSLError::Factorization
    } else if code == 7 {
        GSLError::Sanity
    } else if code == 8 {
        GSLError::NoMemory
    } else if code == 9 {
        GSLError::BadFunction
    } else if code == 10 {
        GSLError::RunAway
    } else if code == 11 {
        GSLError::MaxIteration
    } else if code == 12 {
        GSLError::ZeroDivision
    } else if code == 13 {
        GSLError::BadTolerance
    } else if code == 14 {
        GSLError::Tolerance
    } else if code == 15 {
        GSLError::Underflow
    } else if code == 16 {
        GSLError::Overflow
    } else if code == 17 {
        GSLError::Loss
    } else if code == 18 {
        GSLError::Roundoff
    } else if code == 19 {
        GSLError::BadLength
    } else if code == 20 {
        GSLError::NotSquare
    } else if code == 21 {
        GSLError::Singularity
    } else if code == 22 {
        GSLError::Divergent
    } else if code == 23 {
        GSLError::Unsupported
    } else if code == 24 {
        GSLError::Unimplemented
    } else if code == 25 {
        GSLError::CacheLimit
    } else if code == 26 {
        GSLError::TableLimit
    } else if code == 27 {
        GSLError::NoProgress
    } else if code == 28 {
        GSLError::NoProgressJacobian
    } else if code == 29 {
        GSLError::ToleranceF
    } else if code == 30 {
        GSLError::ToleranceX
    } else if code == 31 {
        GSLError::ToleranceG
    } else if code == 32 {
        GSLError::EndOfFile
    } else {
        GSLError::Unknown(code as i32)
    }
}

impl GSLError {
    /// Translates a native return code into the error it stands for.
    pub fn from_code(code: i32) -> (e: GSLError)
        ensures
            e == spec_error_of_code(code as int),
    {
        match code {
            -1 => GSLError::Failure,
            -2 => GSLError::Continue,
            1 => GSLError::Domain,
            2 => GSLError::Range,
            3 => GSLError::Fault,
            4 => GSLError::Invalid,
            5 => GSLError::Failed,
            6 => GSLError::Factorization,
            7 => GSLError::Sanity,
            8 => GSLError::NoMemory,
            9 => GSLError::BadFunction,
            10 => GSLError::RunAway,
            11 => GSLError::MaxIteration,
            12 => GSLError::ZeroDivision,
            13 => GSLError::BadTolerance,
            14 => GSLError::Tolerance,
            15 => GSLError::Underflow,
            16 => GSLError::Overflow,
            17 => GSLError::Loss,
            18 => GSLError::Roundoff,
            19 => GSLError::BadLength,
            20 => GSLError::NotSquare,
            21 => GSLError::Singularity,
            22 => GSLError::Divergent,
            23 => GSLError::Unsupported,
            24 => GSLError::Unimplemented,
            25 => GSLError::CacheLimit,
            26 => GSLError::TableLimit,
            27 => GSLError::NoProgress,
            28 => GSLError::NoProgressJacobian,
            29 => GSLError::ToleranceF,
            30 => GSLError::ToleranceX,
            31 => GSLError::ToleranceG,
            32 => GSLError::EndOfFile,
            _ => GSLError::Unknown(code),
        }
    }

    /// The native return code this error stands for.
    pub fn code(self) -> (code: i32)
        ensures
            code as int == spec_code_of(self),
    {
        match self {
            GSLError::Failure => -1,
            GSLError::Continue => -2,
            GSLError::Domain => 1,
            GSLError::Range => 2,
            GSLError::Fault => 3,
            GSLError::Invalid => 4,
            GSLError::Failed => 5,
            GSLError::Factorization => 6,
            GSLError::Sanity => 7,
            GSLError::NoMemory => 8,
            GSLError::BadFunction => 9,
            GSLError::RunAway => 10,
            GSLError::MaxIteration => 11,
            GSLError::ZeroDivision => 12,
            GSLError::BadTolerance => 13,
            GSLError::Tolerance => 14,
            GSLError::Underflow => 15,
            GSLError::Overflow => 16,
            GSLError::Loss => 17,
            GSLError::Roundoff => 18,
            GSLError::BadLength => 19,
            GSLError::NotSquare => 20,
            GSLError::Singularity => 21,
            GSLError::Divergent => 22,
            GSLError::Unsupported => 23,
            GSLError::Unimplemented => 24,
            GSLError::CacheLimit => 25,
            GSLError::TableLimit => 26,
            GSLError::NoProgress => 27,
            GSLError::NoProgressJacobian => 28,
            GSLError::ToleranceF => 29,
            GSLError::ToleranceX => 30,
            GSLError::ToleranceG => 31,
            GSLError::EndOfFile => 32,
            GSLError::Unknown(c) => c,
        }
    }
}

/// Law: the translation keeps every native code verbatim. Reading the code
/// back from the error a code maps to gives that code again, for every
/// 32-bit code.
pub proof fn lemma_from_code_round_trip(code: i32)
    ensures
        spec_code_of(spec_error_of_code(code as int)) == code as int,
{
}

/// Law: on the errno table the translation is one-to-one. Every error but
/// `Unknown` is mapped back to by exactly the code it stands for.
pub proof fn lemma_code_of_round_trip(e: GSLError)
    requires
        !(e is Unknown),
    ensures
        spec_error_of_code(spec_code_of(e)) == e,
{
}

/// What `integrate` can fail with: a native return code surfaced verbatim,
/// or a request refused before any native call because the integrand is
/// not scalar.
#[derive(Clone, Copy, Debug, PartialEq, Eq, Structural)]
pub enum GSLIntegrationError {
    /// The native routine returned this non-success code.
    GSLError(GSLError),
    /// The integrand consumes `input_dim` scalars and produces
    /// `output_dim`; the native routine evaluates functions of one scalar
    /// to one scalar, so the request was refused before the call.
    InvalidIntegrand { input_dim: usize, output_dim: usize },
}

} // verus!
