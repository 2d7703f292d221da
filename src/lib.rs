//! Shape rules, kernel status handling and the workspace protocol of a small
//! linear-algebra toolbox over flat column-major buffers.
//!
//! The numeric kernels themselves work on floating-point buffers; this library
//! decides everything around them: which dimensions a call derives and whether
//! they are consistent, which kernel a product is routed to, how a kernel's
//! status code becomes a typed outcome, and the steps of the eigensolver's
//! query-then-execute protocol.

use vstd::prelude::*;

pub mod decomposition;
pub mod shape;

verus! {

/// An error.
#[derive(Clone, Copy, Debug, PartialEq, Eq, Structural)]
pub enum Error {
    /// One or more arguments have illegal values.
    InvalidArguments,
    /// The algorithm failed to converge.
    FailedToConverge,
}

/// A result.
pub type Result<T> = core::result::Result<T, Error>;

impl Error {
    /// The text that describes the error.
    pub fn description(&self) -> (r: &'static str)
        ensures
            r@ == error_text(*self),
    {
        match *self {
            Error::InvalidArguments => "one or more arguments have illegal values",
            Error::FailedToConverge => "the algorithm failed to converge",
        }
    }
}

/// What `Error::description` says of each error.
pub open spec fn error_text(e: Error) -> Seq<char> {
    match e {
        Error::InvalidArguments => "one or more arguments have illegal values"@,
        Error::FailedToConverge => "the algorithm failed to converge"@,
    }
}

/// The typed outcome of a kernel status code: zero is success, a negative
/// code names an illegal argument, a positive one a failure to converge.
pub open spec fn status_outcome(flag: int) -> Result<()> {
    if flag < 0 {
        Err(Error::InvalidArguments)
    } else if flag > 0 {
        Err(Error::FailedToConverge)
    } else {
        Ok(())
    }
}

/// Turns a kernel status code into a typed outcome.
pub fn check_status(flag: i32) -> (r: Result<()>)
    ensures
        r == status_outcome(flag as int),
{
    if flag < 0 {
        Err(Error::InvalidArguments)
    } else if flag > 0 {
        Err(Error::FailedToConverge)
    } else {
        Ok(())
    }
}

} // verus!
