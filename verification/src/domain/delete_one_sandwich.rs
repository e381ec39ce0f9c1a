//! Deleting one sandwich.
use vstd::prelude::*;

verus! {

/// Why deleting a sandwich failed.
#[derive(Debug)]
pub enum DeleteOneError {
    Unknown(String),
}

/// Deletes the sandwich with the given identifier. This always succeeds.
pub fn delete_one_sandwich(id: &str) -> (r: Result<(), DeleteOneError>)
    ensures
        r is Ok,
{
    Ok(())
}

} // verus!
