use recipe_routes::error::ValidationError;
use recipe_routes::identifier::{validate, RecordIdentifier};
use recipe_routes::outcome::{ExternalResult, StorageOutcome};
use recipe_routes::pagination::Pagination;
use recipe_routes::recipe::{Difficulty, InsertedRecipe, Recipe};
use recipe_routes::routes::{RecipeRoutes, StorageRequest};

const VALID_ID: &str = "5f7333360051027600b01a36";

fn sample_recipe(title: &str) -> Recipe {
    Recipe {
        title: title.to_string(),
        description: String::new(),
        difficulty: Difficulty::Easy,
        cooking_time_in_minutes: 12,
        default_servings: 2,
        tags: Vec::new(),
        instructions: Vec::new(),
        ingredients: Vec::new(),
        created: "2020-09-11T12:21:21+00:00".to_string(),
        last_modified: "2020-09-11T12:21:21+00:00".to_string(),
        version: 1,
    }
}

/// An in-memory stand-in for the storage collaborator. It keeps the records
/// in insertion order, counts how often it was invoked, and can be switched
/// into a failing mode where every operation reports an infrastructure
/// failure.
struct FakeStore {
    records: Vec<(String, Recipe)>,
    calls: usize,
    next_id: u64,
    failing: bool,
}

impl FakeStore {
    fn new() -> FakeStore {
        FakeStore { records: Vec::new(), calls: 0, next_id: 1, failing: false }
    }

    fn assign_id(&mut self) -> RecordIdentifier {
        let text = format!("{:024x}", self.next_id);
        self.next_id += 1;
        validate(text).unwrap()
    }

    fn fetch_one(&mut self, id: &RecordIdentifier) -> StorageOutcome<Recipe> {
        self.calls += 1;
        if self.failing {
            return StorageOutcome::InfrastructureFailure;
        }
        match self.records.iter().find(|(key, _)| key == id.as_str()) {
            Some((_, recipe)) => StorageOutcome::Present(recipe.clone()),
            None => StorageOutcome::Absent,
        }
    }

    fn insert_one(&mut self, recipe: Recipe) -> StorageOutcome<InsertedRecipe> {
        self.calls += 1;
        if self.failing {
            return StorageOutcome::InfrastructureFailure;
        }
        let id = self.assign_id();
        self.records.push((id.as_str().to_string(), recipe.clone()));
        StorageOutcome::Present(InsertedRecipe { id, recipe })
    }

    fn insert_many(&mut self, recipes: Vec<Recipe>) -> StorageOutcome<Vec<InsertedRecipe>> {
        self.calls += 1;
        if self.failing {
            return StorageOutcome::InfrastructureFailure;
        }
        let mut inserted = Vec::new();
        for recipe in recipes {
            let id = self.assign_id();
            self.records.push((id.as_str().to_string(), recipe.clone()));
            inserted.push(InsertedRecipe { id, recipe });
        }
        StorageOutcome::Present(inserted)
    }

    fn replace_one(&mut self, id: &RecordIdentifier, recipe: Recipe) -> StorageOutcome<()> {
        self.calls += 1;
        if self.failing {
            return StorageOutcome::InfrastructureFailure;
        }
        match self.records.iter_mut().find(|(key, _)| key == id.as_str()) {
            Some(slot) => {
                slot.1 = recipe;
                StorageOutcome::Present(())
            }
            None => StorageOutcome::Absent,
        }
    }

    fn remove_one(&mut self, id: &RecordIdentifier) -> StorageOutcome<()> {
        self.calls += 1;
        if self.failing {
            return StorageOutcome::InfrastructureFailure;
        }
        match self.records.iter().position(|(key, _)| key == id.as_str()) {
            Some(index) => {
                self.records.remove(index);
                StorageOutcome::Present(())
            }
            None => StorageOutcome::Absent,
        }
    }

    fn fetch_all(&mut self) -> StorageOutcome<Vec<Recipe>> {
        self.calls += 1;
        if self.failing {
            return StorageOutcome::InfrastructureFailure;
        }
        StorageOutcome::Present(self.records.iter().map(|(_, r)| r.clone()).collect())
    }
}

#[test]
fn get_one_with_malformed_id_never_reaches_storage() {
    let store = FakeStore::new();
    let step = RecipeRoutes::get_one_recipe(Some("hello".to_string()));
    let response = step.unwrap_err();
    assert_eq!(
        response,
        ExternalResult::ClientError(ValidationError::MalformedIdentifier)
    );
    assert_eq!(response.status_code(), 400);
    assert_eq!(store.calls, 0);
}

#[test]
fn added_recipe_is_echoed_and_can_be_fetched_back() {
    let mut store = FakeStore::new();
    let recipe = sample_recipe("Spaghetti");

    let request = RecipeRoutes::add_one_recipe(recipe.clone());
    let outcome = match request {
        StorageRequest::InsertOne(payload) => store.insert_one(payload),
        _ => panic!("add-one must issue an insert request"),
    };
    let response = RecipeRoutes::add_one_response(outcome);
    let inserted = match response {
        ExternalResult::Success(inserted) => inserted,
        _ => panic!("insertion must succeed"),
    };
    assert_eq!(inserted.recipe, recipe);

    let step = RecipeRoutes::get_one_recipe(Some(inserted.id.as_str().to_string()));
    let outcome = match step.unwrap() {
        StorageRequest::FetchOne(id) => store.fetch_one(&id),
        _ => panic!("get-one must issue a fetch request"),
    };
    assert_eq!(
        RecipeRoutes::get_one_response(outcome),
        ExternalResult::Success(recipe)
    );
}

#[test]
fn get_many_with_partial_pagination_never_reaches_storage() {
    let store = FakeStore::new();
    let params = Pagination { page: Some(1), size: None };
    let response = RecipeRoutes::get_many_recipes(params).unwrap_err();
    assert_eq!(
        response,
        ExternalResult::ClientError(ValidationError::PartiallySetPagination)
    );
    assert_eq!(response.status_code(), 400);
    assert_eq!(store.calls, 0);
}

#[test]
fn get_many_without_pagination_on_empty_collection_is_an_empty_sequence() {
    let mut store = FakeStore::new();
    let params = Pagination { page: None, size: None };
    let outcome = match RecipeRoutes::get_many_recipes(params).unwrap() {
        StorageRequest::FetchAll => store.fetch_all(),
        _ => panic!("empty pagination must list the whole collection"),
    };
    assert_eq!(
        RecipeRoutes::get_many_response(outcome),
        ExternalResult::Success(Vec::new())
    );
}

#[test]
fn update_of_nonexistent_record_is_not_found() {
    let mut store = FakeStore::new();
    let payload = sample_recipe("Porridge");
    let step = RecipeRoutes::update_one_recipe(Some(VALID_ID.to_string()), payload);
    let outcome = match step.unwrap() {
        StorageRequest::ReplaceOne(id, recipe) => store.replace_one(&id, recipe),
        _ => panic!("update-one must issue a replace request"),
    };
    assert_eq!(
        RecipeRoutes::update_one_response(outcome),
        ExternalResult::NotFound
    );
}

#[test]
fn repeated_delete_is_not_found_not_internal_error() {
    let mut store = FakeStore::new();
    let inserted = match store.insert_one(sample_recipe("Stew")) {
        StorageOutcome::Present(inserted) => inserted,
        _ => panic!("insertion must succeed"),
    };
    let segment = inserted.id.as_str().to_string();

    let first = match RecipeRoutes::delete_one_recipe(Some(segment.clone())).unwrap() {
        StorageRequest::RemoveOne(id) => store.remove_one(&id),
        _ => panic!("delete-one must issue a remove request"),
    };
    assert_eq!(RecipeRoutes::delete_one_response(first), ExternalResult::Success(()));

    let second = match RecipeRoutes::delete_one_recipe(Some(segment)).unwrap() {
        StorageRequest::RemoveOne(id) => store.remove_one(&id),
        _ => panic!("delete-one must issue a remove request"),
    };
    let response = RecipeRoutes::delete_one_response(second);
    assert_eq!(response, ExternalResult::NotFound);
    assert_ne!(response, ExternalResult::InternalError);
}

#[test]
fn infrastructure_failure_is_distinguishable_from_not_found() {
    let mut store = FakeStore::new();
    store.failing = true;
    let outcome = match RecipeRoutes::get_one_recipe(Some(VALID_ID.to_string())).unwrap() {
        StorageRequest::FetchOne(id) => store.fetch_one(&id),
        _ => panic!("get-one must issue a fetch request"),
    };
    let response = RecipeRoutes::get_one_response(outcome);
    assert_eq!(response, ExternalResult::InternalError);
    assert_ne!(response, ExternalResult::NotFound);
    assert_eq!(response.status_code(), 500);
    assert_ne!(response.status_code(), ExternalResult::<Recipe>::NotFound.status_code());
}

#[test]
fn empty_bulk_insert_is_rejected_before_storage() {
    let store = FakeStore::new();
    let response = RecipeRoutes::add_many_recipes(Vec::new()).unwrap_err();
    assert_eq!(
        response,
        ExternalResult::ClientError(ValidationError::EmptyPayload)
    );
    assert_eq!(store.calls, 0);
}

#[test]
fn bulk_insert_then_unbounded_list_returns_all_in_order() {
    let mut store = FakeStore::new();
    let payload: Vec<Recipe> = (0..50).map(|i| sample_recipe(&format!("Recipe {}", i))).collect();
    let outcome = match RecipeRoutes::add_many_recipes(payload.clone()).unwrap() {
        StorageRequest::InsertMany(recipes) => {
            assert_eq!(recipes, payload);
            store.insert_many(recipes)
        }
        _ => panic!("add-many must issue a bulk insert request"),
    };
    let response = RecipeRoutes::add_many_response(outcome);
    let inserted = match response {
        ExternalResult::Success(inserted) => inserted,
        _ => panic!("bulk insertion must succeed"),
    };
    assert_eq!(inserted.len(), 50);

    let params = Pagination { page: None, size: None };
    let listed = match RecipeRoutes::get_many_recipes(params).unwrap() {
        StorageRequest::FetchAll => store.fetch_all(),
        _ => panic!("empty pagination must list the whole collection"),
    };
    assert_eq!(
        RecipeRoutes::get_many_response(listed),
        ExternalResult::Success(payload)
    );
}

#[test]
fn fully_set_pagination_issues_a_bounded_fetch() {
    let params = Pagination { page: Some(2), size: Some(25) };
    match RecipeRoutes::get_many_recipes(params).unwrap() {
        StorageRequest::FetchBounded(page, size) => {
            assert_eq!(page, 2);
            assert_eq!(size, 25);
        }
        _ => panic!("fully set pagination must issue a bounded fetch"),
    }
}

#[test]
fn missing_identifier_is_a_client_error() {
    let response = RecipeRoutes::delete_one_recipe(None).unwrap_err();
    assert_eq!(
        response,
        ExternalResult::ClientError(ValidationError::MissingIdentifier)
    );
    assert_eq!(response.status_code(), 400);
}
