//! Finding one sandwich.
use vstd::prelude::*;

use crate::domain::sandwich::{new_sandwich, Sandwich, SandwichType, SandwichView, sandwich_id};
use crate::text::{strs_to_strings, strs_view};

verus! {

/// Why finding a sandwich failed.
#[derive(Debug)]
pub enum FindOneError {
    Unknown(String),
    NotFound,
}

/// Finds a sandwich: the meat sandwich with the given identifier (none for empty text),
/// name and ingredients. The name and the ingredients must make a valid sandwich.
pub fn find_one_sandwich<'a>(id: &'a str, name: &'a str, ingredients: &'a Vec<&str>) -> (r: Result<Sandwich, FindOneError>)
    requires
        name@.len() > 0,
        ingredients@.len() > 0,
    ensures
        r matches Ok(s) && s@ == (SandwichView {
            id: sandwich_id(id@),
            name: name@,
            ingredients: strs_view(ingredients@),
            sandwich_type: SandwichType::Meat,
        }),
{
    let owned_ingredients = strs_to_strings(ingredients);
    let built = Sandwich::new(id.to_owned(), name.to_owned(), owned_ingredients, SandwichType::Meat);
    match built {
        Ok(sandwich) => Ok(sandwich),
        Err(_) => {
            proof {
                assert(new_sandwich(id@, name@, strs_view(ingredients@), SandwichType::Meat) is Ok);
            }
            Err(FindOneError::NotFound)
        },
    }
}

} // verus!
