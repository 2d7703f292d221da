//! The query-then-execute protocol of the symmetric eigensolver.
//!
//! `A = U·diag(L)·Uᵀ` is computed in place: a buffer `AU` of `m × m` elements
//! holds `A` on entry and the eigenvectors `U` on success, and `L` of `m`
//! elements receives the eigenvalues in ascending order. The kernel is first
//! asked only for the size of the workspace it needs, and then run with a
//! workspace of that size. `m = 0` is accepted: the kernel has nothing to do
//! and the call succeeds. After a failure the contents of `AU` and `L` are
//! unspecified: the protocol never retries and never repairs a partial result.

use vstd::prelude::*;
use crate::shape::{fits, leading, MAX_DIM};
use crate::{check_status, status_outcome, Error, Result};

verus! {

/// The dimensions handed to the eigensolver: the order `n` of the matrix and
/// the leading dimension `lda` of its buffer.
#[derive(Clone, Copy, Debug, PartialEq, Eq, Structural)]
pub struct EigenShape {
    pub n: i32,
    pub lda: i32,
}

/// Whether `AU` of `au_len` elements holds an `m × m` matrix, where
/// `m = l_len` is the length of `L`, and `m` fits a kernel dimension.
pub open spec fn square(au_len: int, l_len: int) -> bool {
    au_len == l_len * l_len && fits(l_len)
}

/// Derives the eigensolver's dimensions from the lengths of `AU` and `L`;
/// `None` where `AU` is not `m × m`.
pub fn eigen_shape(au_len: usize, l_len: usize) -> (r: Option<EigenShape>)
    ensures
        r is Some <==> square(au_len as int, l_len as int),
        r matches Some(s) ==> s.n as int == l_len as int && s.lda as int == leading(l_len as int),
{
    if l_len > MAX_DIM {
        return None;
    }
    match l_len.checked_mul(l_len) {
        Some(size) if size == au_len => {
            let n = l_len as i32;
            let lda: i32 = if n < 1 { 1 } else { n };
            Some(EigenShape { n, lda })
        },
        _ => None,
    }
}

/// The kernel call that has just returned.
#[derive(Clone, Copy, Debug, PartialEq, Eq, Structural)]
pub enum Phase {
    /// The call that only reports the workspace size.
    Query,
    /// The call that computes the decomposition.
    Execute,
}

/// What to do after a kernel call.
#[derive(Clone, Copy, Debug, PartialEq, Eq)]
pub enum Action {
    /// Allocate a workspace of `size` elements and run the decomposition,
    /// telling the kernel its size `lwork`.
    Execute { size: usize, lwork: i32 },
    /// Stop with this outcome.
    Finish(Result<()>),
}

/// The protocol's decision after `phase` returned status `flag`, with
/// `reported` the workspace size that a query wrote back. A query that
/// fails, or reports a negative size, ends the run; a successful query leads
/// to the decomposition; the decomposition's status is the outcome.
pub open spec fn next_action(phase: Phase, flag: int, reported: int) -> Action {
    match phase {
        Phase::Query => if flag != 0 {
            Action::Finish(status_outcome(flag))
        } else if reported < 0 {
            Action::Finish(Err(Error::InvalidArguments))
        } else {
            Action::Execute { size: reported as usize, lwork: reported as i32 }
        },
        Phase::Execute => Action::Finish(status_outcome(flag)),
    }
}

/// Decides the next step of the protocol after the kernel call of `phase`
/// returned status `flag` (and, for a query, the workspace size `reported`).
pub fn advance(phase: Phase, flag: i32, reported: i32) -> (r: Action)
    ensures
        r == next_action(phase, flag as int, reported as int),
        // a failed query ends the run before any workspace or second call
        phase == Phase::Query && flag < 0 ==> r == Action::Finish(Err(Error::InvalidArguments)),
        phase == Phase::Query && flag > 0 ==> r == Action::Finish(Err(Error::FailedToConverge)),
        // the decomposition is never run twice
        phase == Phase::Execute ==> r is Finish,
        phase == Phase::Execute && flag > 0 ==> r == Action::Finish(Err(Error::FailedToConverge)),
        phase == Phase::Execute && flag < 0 ==> r == Action::Finish(Err(Error::InvalidArguments)),
        phase == Phase::Execute && flag == 0 ==> r == Action::Finish(Ok(())),
        r matches Action::Execute { size, lwork } ==> size as int == lwork as int && lwork >= 0,
{
    match phase {
        Phase::Query => if flag != 0 {
            Action::Finish(check_status(flag))
        } else if reported < 0 {
            Action::Finish(Err(Error::InvalidArguments))
        } else {
            Action::Execute { size: reported as usize, lwork: reported }
        },
        Phase::Execute => Action::Finish(check_status(flag)),
    }
}

} // verus!
