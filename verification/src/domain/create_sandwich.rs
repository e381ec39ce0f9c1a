//! Creating a sandwich.
use vstd::prelude::*;

use crate::domain::sandwich::{new_sandwich, sandwich_result_view, Sandwich, SandwichType, SandwichView};
use crate::text::{strs_to_strings, strs_view};

verus! {

/// Why creating a sandwich failed.
#[derive(Debug)]
pub enum CreateError {
    Unknown(String),
    InvalidData(String),
    Conflict(String),
}

/// What `create_sandwich` gives: the new sandwich, without an identifier, or the broken
/// rule as invalid data.
pub open spec fn created_sandwich(
    name: Seq<char>,
    ingredients: Seq<Seq<char>>,
    sandwich_type: SandwichType,
) -> Result<SandwichView, Seq<char>> {
    new_sandwich(Seq::empty(), name, ingredients, sandwich_type)
}

/// Creates a sandwich with the given name, ingredients and kind.
pub fn create_sandwich<'a>(name: &'a str, ingredients: &'a Vec<&str>, sandwich_type: &SandwichType) -> (r: Result<Sandwich, CreateError>)
    ensures
        match r {
            Ok(s) => created_sandwich(name@, strs_view(ingredients@), *sandwich_type) == Ok::<SandwichView, Seq<char>>(s@),
            Err(CreateError::InvalidData(m)) => created_sandwich(name@, strs_view(ingredients@), *sandwich_type) == Err::<SandwichView, Seq<char>>(m@),
            Err(_) => false,
        },
{
    let owned_ingredients = strs_to_strings(ingredients);
    let built = Sandwich::new(String::new(), name.to_owned(), owned_ingredients, *sandwich_type);
    proof {
        assert(sandwich_result_view(built) == created_sandwich(name@, strs_view(ingredients@), *sandwich_type));
    }
    match built {
        Ok(sandwich) => Ok(sandwich),
        Err(message) => Err(CreateError::InvalidData(message)),
    }
}

} // verus!
