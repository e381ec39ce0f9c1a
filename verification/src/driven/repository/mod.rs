//! The sandwich store: its errors, its search criteria and its MongoDB form.
use vstd::prelude::*;

use crate::text::strings_view;

pub mod mongo_repo;
pub mod object_id;

verus! {

/// Why storing a new sandwich failed.
#[derive(Debug)]
pub enum RepoCreateError {
    InvalidData(String),
    Unknown(String),
}

/// Why reading one sandwich failed.
#[derive(Debug)]
pub enum RepoSelectError {
    NotFound,
    Unknown(String),
}

/// Why listing sandwiches failed.
#[derive(Debug)]
pub enum RepoFindAllError {
    Unknown(String),
}

/// Why updating a sandwich failed.
#[derive(Debug)]
pub enum RepoUpdateError {
    InvalidData(String),
    NotFound,
    Unknown(String),
}

/// Why deleting a sandwich failed.
#[derive(Debug)]
pub enum RepoDeleteError {
    NotFound,
    InvalidData(String),
    Unknown(String),
}

/// Search criteria: an identifier, or a name and ingredients (empty means any).
#[derive(Debug, Clone)]
pub struct FindSandwich {
    pub id: Option<String>,
    pub name: String,
    pub ingredients: Vec<String>,
}

/// Search criteria as mathematical values.
pub struct FindSandwichView {
    pub id: Option<Seq<char>>,
    pub name: Seq<char>,
    pub ingredients: Seq<Seq<char>>,
}

impl View for FindSandwich {
    type V = FindSandwichView;

    open spec fn view(&self) -> FindSandwichView {
        FindSandwichView {
            id: match self.id {
                Some(id) => Some(id@),
                None => None,
            },
            name: self.name@,
            ingredients: strings_view(self.ingredients@),
        }
    }
}

} // verus!
