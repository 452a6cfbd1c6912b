//! The typed failures of a request.

use vstd::prelude::*;

verus! {

/// Why a request did not produce a bundle.
#[derive(Clone, Copy, Debug, PartialEq, Eq, Structural, Hash)]
pub enum Failure {
    /// The transaction identifier is malformed.
    InvalidInput,
    /// The transaction is unknown to the ledger, or absent from the manifest
    /// of the checkpoint that was fetched.
    NotFound,
    /// The ledger source failed transiently.
    Unavailable,
    /// The manifest lists the transaction, but no record of it confirms the
    /// effects digest that the manifest states.
    IntegrityMismatch,
}

/// The words by which a failure is reported.
pub open spec fn failure_label(failure: Failure) -> Seq<char> {
    match failure {
        Failure::InvalidInput => "invalid input"@,
        Failure::NotFound => "not found"@,
        Failure::Unavailable => "unavailable"@,
        Failure::IntegrityMismatch => "integrity mismatch"@,
    }
}

impl Failure {
    /// The words by which the failure is reported.
    pub fn label(&self) -> (text: &'static str)
        ensures
            text@ == failure_label(*self),
    {
        match self {
            Failure::InvalidInput => "invalid input",
            Failure::NotFound => "not found",
            Failure::Unavailable => "unavailable",
            Failure::IntegrityMismatch => "integrity mismatch",
        }
    }
}

/// Reports tell failures apart: two different failures never share a label.
/// In particular a corrupted source is never reported as a transaction that
/// is merely absent.
pub proof fn law_labels_tell_failures_apart(a: Failure, b: Failure)
    requires
        a != b,
    ensures
        failure_label(a) != failure_label(b),
{
    reveal_strlit("invalid input");
    reveal_strlit("not found");
    reveal_strlit("unavailable");
    reveal_strlit("integrity mismatch");
    assert(failure_label(Failure::InvalidInput).len() == 13);
    assert(failure_label(Failure::NotFound).len() == 9);
    assert(failure_label(Failure::Unavailable).len() == 11);
    assert(failure_label(Failure::IntegrityMismatch).len() == 18);
}

} // verus!
