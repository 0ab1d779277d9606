//! Input-shape errors detected by the validators before storage is reached.

use vstd::prelude::*;

verus! {

/// The ways a request can be rejected locally, without touching storage.
///
/// The first two concern the record identifier taken from the request path,
/// the third concerns the page/size query pair, and the last rejects a bulk
/// insert whose body is a well-formed but empty sequence (a malformed body
/// from the transport's point of view).
#[derive(Clone, Copy, Debug, PartialEq, Eq, Structural)]
pub enum ValidationError {
    MissingIdentifier,
    MalformedIdentifier,
    PartiallySetPagination,
    EmptyPayload,
}

} // verus!
