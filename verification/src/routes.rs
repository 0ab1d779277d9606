//! The recipe resource operations.
//!
//! Each operation is a short pipeline: validate the request's inputs, invoke
//! the storage collaborator, mediate its outcome. The storage call itself is
//! asynchronous and belongs to the caller; the library supplies the two
//! decision steps around it. The request step either produces the storage
//! request to issue or short-circuits with the complete client-error
//! response, so storage is never reached on invalid input. The response step
//! mediates the storage outcome under the operation's shape.

use vstd::prelude::*;

use crate::error::ValidationError;
use crate::identifier::{extract_id, is_object_id, RecordIdentifier};
use crate::outcome::{mediate, spec_mediate, ExternalResult, OperationShape, StorageOutcome};
use crate::pagination::Pagination;
use crate::recipe::{InsertedRecipe, Recipe};

verus! {

/// A fully validated request to the storage collaborator: the only values
/// the operations ever hand to storage.
#[derive(Clone, Debug, PartialEq, Eq)]
pub enum StorageRequest {
    /// Fetch the record with a validated identifier.
    FetchOne(RecordIdentifier),
    /// Replace the record with a validated identifier by the payload.
    ReplaceOne(RecordIdentifier, Recipe),
    /// Remove the record with a validated identifier.
    RemoveOne(RecordIdentifier),
    /// Insert one payload.
    InsertOne(Recipe),
    /// Insert a non-empty sequence of payloads, in order.
    InsertMany(Vec<Recipe>),
    /// List a page of the collection: page number and page size.
    FetchBounded(u64, u64),
    /// List the whole collection.
    FetchAll,
}

pub struct RecipeRoutes {}

impl RecipeRoutes {
    /// Request step of get-one: validate the path identifier.
    pub fn get_one_recipe(id_segment: Option<String>) -> (r: Result<
        StorageRequest,
        ExternalResult<Recipe>,
    >)
        ensures
            id_segment is None ==> r == Err::<StorageRequest, _>(
                ExternalResult::<Recipe>::ClientError(ValidationError::MissingIdentifier),
            ),
            id_segment matches Some(s) ==> {
                &&& is_object_id(s@) ==> (r matches Ok(req) && req matches StorageRequest::FetchOne(
                    id,
                ) && id@ == s@)
                &&& !is_object_id(s@) ==> r == Err::<StorageRequest, _>(
                    ExternalResult::<Recipe>::ClientError(ValidationError::MalformedIdentifier),
                )
            },
    {
        match extract_id(id_segment) {
            Ok(id) => Ok(StorageRequest::FetchOne(id)),
            Err(e) => Err(ExternalResult::ClientError(e)),
        }
    }

    /// Response step of get-one: mediate as a single read, echoing the
    /// fetched record on success.
    pub fn get_one_response(outcome: StorageOutcome<Recipe>) -> (r: ExternalResult<Recipe>)
        ensures
            r == spec_mediate(outcome, OperationShape::SingleRead),
    {
        mediate(outcome, OperationShape::SingleRead)
    }

    /// Request step of update-one: validate the path identifier and pair it
    /// with the replacement payload.
    pub fn update_one_recipe(id_segment: Option<String>, payload: Recipe) -> (r: Result<
        StorageRequest,
        ExternalResult<()>,
    >)
        ensures
            id_segment is None ==> r == Err::<StorageRequest, _>(
                ExternalResult::<()>::ClientError(ValidationError::MissingIdentifier),
            ),
            id_segment matches Some(s) ==> {
                &&& is_object_id(s@) ==> (r matches Ok(req) && req matches
                StorageRequest::ReplaceOne(id, p) && id@ == s@ && p == payload)
                &&& !is_object_id(s@) ==> r == Err::<StorageRequest, _>(
                    ExternalResult::<()>::ClientError(ValidationError::MalformedIdentifier),
                )
            },
    {
        match extract_id(id_segment) {
            Ok(id) => Ok(StorageRequest::ReplaceOne(id, payload)),
            Err(e) => Err(ExternalResult::ClientError(e)),
        }
    }

    /// Response step of update-one: mediate as a single write. Success is an
    /// empty acknowledgment that the target existed and was affected, not the
    /// record body.
    pub fn update_one_response(outcome: StorageOutcome<()>) -> (r: ExternalResult<()>)
        ensures
            r == spec_mediate(outcome, OperationShape::SingleWrite),
    {
        mediate(outcome, OperationShape::SingleWrite)
    }

    /// Request step of delete-one: validate the path identifier.
    pub fn delete_one_recipe(id_segment: Option<String>) -> (r: Result<
        StorageRequest,
        ExternalResult<()>,
    >)
        ensures
            id_segment is None ==> r == Err::<StorageRequest, _>(
                ExternalResult::<()>::ClientError(ValidationError::MissingIdentifier),
            ),
            id_segment matches Some(s) ==> {
                &&& is_object_id(s@) ==> (r matches Ok(req) && req matches StorageRequest::RemoveOne(
                    id,
                ) && id@ == s@)
                &&& !is_object_id(s@) ==> r == Err::<StorageRequest, _>(
                    ExternalResult::<()>::ClientError(ValidationError::MalformedIdentifier),
                )
            },
    {
        match extract_id(id_segment) {
            Ok(id) => Ok(StorageRequest::RemoveOne(id)),
            Err(e) => Err(ExternalResult::ClientError(e)),
        }
    }

    /// Response step of delete-one: mediate as a delete, acknowledgment only.
    pub fn delete_one_response(outcome: StorageOutcome<()>) -> (r: ExternalResult<()>)
        ensures
            r == spec_mediate(outcome, OperationShape::Delete),
    {
        mediate(outcome, OperationShape::Delete)
    }

    /// Request step of add-one: no identifier is supplied, so the payload
    /// goes to storage as it stands.
    pub fn add_one_recipe(payload: Recipe) -> (r: StorageRequest)
        ensures
            r == StorageRequest::InsertOne(payload),
    {
        StorageRequest::InsertOne(payload)
    }

    /// Response step of add-one: mediate as a creation, echoing the inserted
    /// record's storage-assigned representation.
    pub fn add_one_response(outcome: StorageOutcome<InsertedRecipe>) -> (r: ExternalResult<
        InsertedRecipe,
    >)
        ensures
            r == spec_mediate(outcome, OperationShape::SingleCreate),
    {
        mediate(outcome, OperationShape::SingleCreate)
    }

    /// Request step of add-many: the payload must be a non-empty ordered
    /// sequence; an empty body carries no insertable records and is rejected
    /// as a client error before storage is reached.
    pub fn add_many_recipes(payloads: Vec<Recipe>) -> (r: Result<
        StorageRequest,
        ExternalResult<Vec<InsertedRecipe>>,
    >)
        ensures
            payloads@.len() == 0 ==> r == Err::<StorageRequest, _>(
                ExternalResult::<Vec<InsertedRecipe>>::ClientError(ValidationError::EmptyPayload),
            ),
            payloads@.len() > 0 ==> r == Ok::<_, ExternalResult<Vec<InsertedRecipe>>>(
                StorageRequest::InsertMany(payloads),
            ),
    {
        if payloads.len() == 0 {
            Err(ExternalResult::ClientError(ValidationError::EmptyPayload))
        } else {
            Ok(StorageRequest::InsertMany(payloads))
        }
    }

    /// Response step of add-many: mediate as a single aggregate creation,
    /// echoing the inserted records in order.
    pub fn add_many_response(outcome: StorageOutcome<Vec<InsertedRecipe>>) -> (r: ExternalResult<
        Vec<InsertedRecipe>,
    >)
        ensures
            r == spec_mediate(outcome, OperationShape::BulkCreate),
    {
        mediate(outcome, OperationShape::BulkCreate)
    }

    /// Request step of get-many: classify the pagination pair. A fully set
    /// pair lists one page, a fully empty pair lists the whole collection,
    /// and a partially set pair is ambiguous and is rejected before storage
    /// is reached.
    pub fn get_many_recipes(params: Pagination) -> (r: Result<
        StorageRequest,
        ExternalResult<Vec<Recipe>>,
    >)
        ensures
            params.spec_fully_set() ==> (r matches Ok(req) && req matches
            StorageRequest::FetchBounded(page, size) && params.page == Some(page) && params.size
            == Some(size)),
            params.spec_fully_empty() ==> r == Ok::<_, ExternalResult<Vec<Recipe>>>(
                StorageRequest::FetchAll,
            ),
            params.spec_partially_set() ==> r == Err::<StorageRequest, _>(
                ExternalResult::<Vec<Recipe>>::ClientError(ValidationError::PartiallySetPagination),
            ),
    {
        if params.is_fully_set() {
            Ok(StorageRequest::FetchBounded(params.page.unwrap(), params.size.unwrap()))
        } else if params.is_fully_empty() {
            Ok(StorageRequest::FetchAll)
        } else {
            Err(ExternalResult::ClientError(ValidationError::PartiallySetPagination))
        }
    }

    /// Response step of get-many: mediate as a list, echoing the fetched
    /// records in the order storage returned them.
    pub fn get_many_response(outcome: StorageOutcome<Vec<Recipe>>) -> (r: ExternalResult<
        Vec<Recipe>,
    >)
        ensures
            r == spec_mediate(outcome, OperationShape::List),
    {
        mediate(outcome, OperationShape::List)
    }
}

} // verus!
