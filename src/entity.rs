//! Entities as the write API describes them.
use vstd::prelude::*;
use crate::api::ApiError;
use crate::claims::PropertyValue;

verus! {

/// The values an entity holds for one property.
#[derive(Debug, Clone)]
pub struct PropertyClaims {
    pub property: String,
    pub values: Vec<PropertyValue>,
}

/// An entity of the store: identifier, English label and claims.
#[derive(Debug, Clone)]
pub struct Entity {
    pub id: String,
    pub properties: Vec<PropertyClaims>,
    pub label: String,
}

/// An entity as the API returns it, before it is checked.
#[derive(Debug, Clone)]
pub struct RawEntity {
    pub id: String,
    pub claims: Option<Vec<PropertyClaims>>,
    pub english_label: Option<String>,
    /// The API reports the entity as missing.
    pub missing: bool,
}

/// Reads the entry that the API returned for the requested `id`: an absent
/// entry is a malformed answer, a missing entity is `EntityNotFound`, and an
/// entity without English label or claims is a malformed answer.
pub fn read_entity(id: &str, entry: Option<RawEntity>) -> (r: Result<Entity, ApiError>)
    ensures
        entry is None ==> r is Err && r->Err_0 is GenericError,
        entry is Some && entry.unwrap().missing ==> r is Err && r->Err_0 is EntityNotFound
            && r->Err_0->EntityNotFound_0@ == id@,
        entry is Some && !entry.unwrap().missing ==> match (
            entry.unwrap().english_label,
            entry.unwrap().claims,
        ) {
            (Some(l), Some(c)) => r is Ok && r->Ok_0.id == entry.unwrap().id && r->Ok_0.label == l
                && r->Ok_0.properties == c,
            _ => r is Err && r->Err_0 is GenericError,
        },
{
    match entry {
        None => Err(ApiError::GenericError("invalid response format, no id in response".to_owned())),
        Some(raw) => {
            if raw.missing {
                Err(ApiError::EntityNotFound(id.to_owned()))
            } else {
                match (raw.english_label, raw.claims) {
                    (Some(label), Some(properties)) => Ok(Entity { id: raw.id, properties, label }),
                    _ => Err(ApiError::GenericError("invalid api response".to_owned())),
                }
            }
        },
    }
}

} // verus!
