//! Listing the sandwiches that match a name and ingredients.
use vstd::prelude::*;

use crate::domain::sandwich::Sandwich;

verus! {

/// Why listing sandwiches failed.
#[derive(Debug)]
pub enum FindAllError {
    Unknown(String),
}

/// Lists the sandwiches with the given name and ingredients. The list is always empty.
pub fn find_all_sandwiches<'a>(name: &'a str, ingredients: &'a Vec<&str>) -> (r: Result<Vec<Sandwich>, FindAllError>)
    ensures
        r matches Ok(list) && list@.len() == 0,
{
    Ok(Vec::new())
}

} // verus!
