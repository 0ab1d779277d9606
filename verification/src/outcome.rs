//! Mediation of storage outcomes into externally observable results.
//!
//! Every storage operation reports one of three states: the storage layer
//! itself failed, the operation completed but the target was absent, or the
//! operation completed on a present record. The mediator maps that tri-state,
//! together with the shape of the operation, onto one of four HTTP-style
//! results. The storage layer's own fallibility is never conflated with a
//! legitimately absent record: the two demand different responses.

use vstd::prelude::*;

use crate::error::ValidationError;

verus! {

/// The tri-state result of a storage operation.
///
/// The outer failure is the storage layer's own (a connection or driver
/// fault); the inner distinction is whether the targeted record exists.
#[derive(Clone, Copy, Debug, PartialEq, Eq)]
pub enum StorageOutcome<T> {
    InfrastructureFailure,
    Absent,
    Present(T),
}

/// The kind of operation whose outcome is being mediated.
///
/// Reads, updates and deletes treat an absent target as a routine not-found;
/// the two creation shapes never legitimately report an absent record, so for
/// them absence is itself an infrastructure-level fault.
#[derive(Clone, Copy, Debug, PartialEq, Eq, Structural)]
pub enum OperationShape {
    SingleRead,
    SingleWrite,
    SingleCreate,
    BulkCreate,
    Delete,
    List,
}

/// The externally observable result of an operation, rendered by the
/// transport as 200, 404, 400 and 500 respectively.
#[derive(Clone, Copy, Debug, PartialEq, Eq)]
pub enum ExternalResult<T> {
    Success(T),
    NotFound,
    ClientError(ValidationError),
    InternalError,
}

/// The shape is a creation: a record is being inserted rather than targeted.
pub open spec fn is_creation(shape: OperationShape) -> bool {
    shape == OperationShape::SingleCreate || shape == OperationShape::BulkCreate
}

/// The mediation table: infrastructure failure is surfaced as an internal
/// error; an absent target is a not-found for reads, updates, deletes and
/// lists, but an internal error for creations, where absence is never a
/// legitimate response; a present value is passed through as success.
pub open spec fn spec_mediate<T>(outcome: StorageOutcome<T>, shape: OperationShape) -> ExternalResult<T> {
    match outcome {
        StorageOutcome::InfrastructureFailure => ExternalResult::InternalError,
        StorageOutcome::Absent => if is_creation(shape) {
            ExternalResult::InternalError
        } else {
            ExternalResult::NotFound
        },
        StorageOutcome::Present(v) => ExternalResult::Success(v),
    }
}

/// Translate a storage outcome into the externally observable result for an
/// operation of the given shape.
pub fn mediate<T>(outcome: StorageOutcome<T>, shape: OperationShape) -> (r: ExternalResult<T>)
    ensures
        r == spec_mediate(outcome, shape),
{
    match outcome {
        StorageOutcome::InfrastructureFailure => ExternalResult::InternalError,
        StorageOutcome::Absent => match shape {
            OperationShape::SingleCreate | OperationShape::BulkCreate => ExternalResult::InternalError,
            _ => ExternalResult::NotFound,
        },
        StorageOutcome::Present(v) => ExternalResult::Success(v),
    }
}

impl<T> ExternalResult<T> {
    /// The HTTP status code the transport renders this result as.
    pub open spec fn spec_status_code(&self) -> u16 {
        match self {
            ExternalResult::Success(_) => 200,
            ExternalResult::NotFound => 404,
            ExternalResult::ClientError(_) => 400,
            ExternalResult::InternalError => 500,
        }
    }

    pub fn status_code(&self) -> (r: u16)
        ensures
            r == self.spec_status_code(),
    {
        match self {
            ExternalResult::Success(_) => 200,
            ExternalResult::NotFound => 404,
            ExternalResult::ClientError(_) => 400,
            ExternalResult::InternalError => 500,
        }
    }
}

/// Mediation is a function of the storage outcome and the operation shape
/// alone: two calls with equal inputs mediate to equal results, whatever
/// happened between them.
pub proof fn lemma_mediation_deterministic<T>(
    o1: StorageOutcome<T>,
    s1: OperationShape,
    o2: StorageOutcome<T>,
    s2: OperationShape,
)
    requires
        o1 == o2,
        s1 == s2,
    ensures
        spec_mediate(o1, s1) == spec_mediate(o2, s2),
{
}

/// A delete whose target is already gone mediates to not-found, never to an
/// internal error: repeating a delete after it succeeded once is a routine
/// outcome, not a storage fault.
pub proof fn lemma_absent_delete_is_not_found<T>(outcome: StorageOutcome<T>)
    requires
        outcome is Absent,
    ensures
        spec_mediate(outcome, OperationShape::Delete) == ExternalResult::<T>::NotFound,
        spec_mediate(outcome, OperationShape::Delete) != ExternalResult::<T>::InternalError,
{
}

} // verus!
