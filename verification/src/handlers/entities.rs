//! Entities: the people, pets, vehicles and properties spending is for.

use vstd::prelude::*;
use vstd::string::*;

use crate::error::{AppError, STATUS_BAD_REQUEST};
use crate::numbers::{int_decimal, push_i64};

verus! {

/// Query parameters for listing entities.
#[derive(Debug)]
pub struct EntityQuery {
    pub entity_type: Option<String>,
    pub include_archived: bool,
}

/// Request to create an entity.
#[derive(Debug)]
pub struct CreateEntityRequest {
    pub name: String,
    pub entity_type: String,
    pub icon: Option<String>,
    pub color: Option<String>,
}

/// Request to update an entity; an inner `None` clears a field.
#[derive(Debug)]
pub struct UpdateEntityRequest {
    pub name: Option<String>,
    pub icon: Option<Option<String>>,
    pub color: Option<Option<String>>,
}

/// Query parameters for deleting an entity.
#[derive(Debug)]
pub struct DeleteEntityQuery {
    pub force: bool,
}

/// The error for an unknown entity type.
pub fn invalid_entity_type(value: &str) -> (r: AppError)
    ensures
        r@.status == STATUS_BAD_REQUEST,
        r@.message == "Invalid entity_type: "@ + value@
            + ". Valid: person, pet, vehicle, property"@,
{
    let mut m = String::from_str("Invalid entity_type: ");
    m.append(value);
    m.append(". Valid: person, pet, vehicle, property");
    AppError::bad_request(m.as_str())
}

/// An entity with splits is deleted only when forced.
pub fn check_entity_delete(name: &str, split_count: i64, q: &DeleteEntityQuery) -> (r: Result<
    (),
    AppError,
>)
    ensures
        r is Ok <==> split_count <= 0 || q.force,
        r matches Err(e) ==> e@.status == STATUS_BAD_REQUEST && e@.message == "Entity '"@ + name@
            + "' has "@ + int_decimal(split_count as int)
            + " associated splits. Use ?force=true to delete anyway."@,
{
    if split_count > 0 && !q.force {
        let mut m = String::from_str("Entity '");
        m.append(name);
        m.append("' has ");
        push_i64(&mut m, split_count);
        m.append(" associated splits. Use ?force=true to delete anyway.");
        Err(AppError::bad_request(m.as_str()))
    } else {
        Ok(())
    }
}

} // verus!
