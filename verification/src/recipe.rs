//! The domain payload handled by the operations.
//!
//! The validation and mediation logic never inspects a recipe: it is an
//! atomic value carried to and from the storage collaborator. The fields are
//! given here so that callers and tests can build concrete values.

use vstd::prelude::*;

use crate::identifier::RecordIdentifier;

verus! {

#[derive(Clone, Copy, Debug, PartialEq, Eq, Structural)]
pub enum Difficulty {
    Easy,
    Medium,
    Hard,
}

#[derive(Clone, Debug, PartialEq, Eq)]
pub struct Ingredient {
    pub id: String,
    pub amount: u64,
    pub title: String,
    pub measurement_unit: String,
}

#[derive(Clone, Debug, PartialEq, Eq)]
pub struct Recipe {
    pub title: String,
    pub description: String,
    pub difficulty: Difficulty,
    pub cooking_time_in_minutes: u64,
    pub default_servings: u64,
    pub tags: Vec<String>,
    pub instructions: Vec<String>,
    pub ingredients: Vec<Ingredient>,
    pub created: String,
    pub last_modified: String,
    pub version: u64,
}

/// A freshly inserted recipe together with the identifier the storage layer
/// assigned to it, echoed back to the caller of an insert operation.
#[derive(Clone, Debug, PartialEq, Eq)]
pub struct InsertedRecipe {
    pub id: RecordIdentifier,
    pub recipe: Recipe,
}

} // verus!
