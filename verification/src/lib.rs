//! Request validation and result mediation for a recipe collection service.
//!
//! The library validates caller-supplied record identifiers and pagination
//! parameters before any storage call is made, and translates the tri-state
//! outcome of the storage collaborator into the externally observable result.

pub mod error;
pub mod identifier;
pub mod outcome;
pub mod pagination;
pub mod recipe;
pub mod routes;
