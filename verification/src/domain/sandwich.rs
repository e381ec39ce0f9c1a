//! The sandwich entity: an optional identifier, a name, its ingredients and its kind.
use vstd::prelude::*;

use crate::text::{clone_strings, strings_view};

verus! {

/// The kind of a sandwich.
#[derive(Clone, Copy, Debug, PartialEq, Eq, Structural)]
pub enum SandwichType {
    Meat,
    Fish,
    Veggie,
}

/// A sandwich. Every sandwich has a non-empty name and at least one ingredient.
#[derive(Debug)]
pub struct Sandwich {
    id: Option<String>,
    name: String,
    ingredients: Vec<String>,
    sandwich_type: SandwichType,
}

/// What a sandwich is, as mathematical values.
pub struct SandwichView {
    pub id: Option<Seq<char>>,
    pub name: Seq<char>,
    pub ingredients: Seq<Seq<char>>,
    pub sandwich_type: SandwichType,
}

impl View for Sandwich {
    type V = SandwichView;

    closed spec fn view(&self) -> SandwichView {
        SandwichView {
            id: match self.id {
                Some(id) => Some(id@),
                None => None,
            },
            name: self.name@,
            ingredients: strings_view(self.ingredients@),
            sandwich_type: self.sandwich_type,
        }
    }
}

/// The message for a sandwich without a name.
pub open spec fn missing_name_message() -> Seq<char> {
    "Any sandwich must have a name"@
}

/// The message for a sandwich without ingredients.
pub open spec fn missing_ingredients_message() -> Seq<char> {
    "Any sandwich must have at least one ingredient"@
}

/// The rules a sandwich's contents obey.
pub open spec fn is_valid_sandwich(name: Seq<char>, ingredients: Seq<Seq<char>>) -> bool {
    name.len() > 0 && ingredients.len() > 0
}

/// The stored identifier for the identifier text given to `Sandwich::new`: none for empty text.
pub open spec fn sandwich_id(id: Seq<char>) -> Option<Seq<char>> {
    if id.len() == 0 {
        None
    } else {
        Some(id)
    }
}

/// What `Sandwich::new` gives for the given values: the sandwich, or the message of the
/// first rule broken (the name is checked before the ingredients).
pub open spec fn new_sandwich(
    id: Seq<char>,
    name: Seq<char>,
    ingredients: Seq<Seq<char>>,
    sandwich_type: SandwichType,
) -> Result<SandwichView, Seq<char>> {
    if name.len() == 0 {
        Err(missing_name_message())
    } else if ingredients.len() == 0 {
        Err(missing_ingredients_message())
    } else {
        Ok(SandwichView { id: sandwich_id(id), name, ingredients, sandwich_type })
    }
}

/// A result carrying a sandwich, taken by its view.
pub open spec fn sandwich_result_view(r: Result<Sandwich, String>) -> Result<SandwichView, Seq<char>> {
    match r {
        Ok(s) => Ok(s@),
        Err(m) => Err(m@),
    }
}

impl Sandwich {
    #[verifier::type_invariant]
    spec fn well_formed(self) -> bool {
        self.name@.len() > 0 && self.ingredients@.len() > 0
    }

    /// Builds a sandwich. An empty `id` means the sandwich has no identifier yet.
    pub fn new(id: String, name: String, ingredients: Vec<String>, sandwich_type: SandwichType) -> (r: Result<Sandwich, String>)
        ensures
            sandwich_result_view(r) == new_sandwich(id@, name@, strings_view(ingredients@), sandwich_type),
    {
        if name.as_str().is_empty() {
            return Err("Any sandwich must have a name".to_owned());
        }
        if ingredients.len() == 0 {
            return Err("Any sandwich must have at least one ingredient".to_owned());
        }
        let id = if id.as_str().is_empty() {
            None
        } else {
            Some(id)
        };
        Ok(Sandwich { id, name, ingredients, sandwich_type })
    }

    /// The identifier, if the sandwich has one.
    pub fn id(&self) -> (r: &Option<String>)
        ensures
            match r {
                Some(id) => self@.id == Some(id@),
                None => self@.id is None,
            },
    {
        &self.id
    }

    /// The name.
    pub fn name(&self) -> (r: &String)
        ensures
            r@ == self@.name,
            is_valid_sandwich(self@.name, self@.ingredients),
    {
        proof {
            use_type_invariant(self);
        }
        &self.name
    }

    /// The ingredients, in order.
    pub fn ingredients(&self) -> (r: &Vec<String>)
        ensures
            strings_view(r@) == self@.ingredients,
            is_valid_sandwich(self@.name, self@.ingredients),
    {
        proof {
            use_type_invariant(self);
        }
        &self.ingredients
    }

    /// The kind.
    pub fn sandwich_type(&self) -> (r: SandwichType)
        ensures
            r == self@.sandwich_type,
    {
        self.sandwich_type
    }

    /// A copy of the sandwich.
    pub fn duplicate(&self) -> (r: Sandwich)
        ensures
            r@ == self@,
    {
        proof {
            use_type_invariant(self);
        }
        let id = match &self.id {
            Some(id) => Some(id.clone()),
            None => None,
        };
        Sandwich {
            id,
            name: self.name.clone(),
            ingredients: clone_strings(&self.ingredients),
            sandwich_type: self.sandwich_type,
        }
    }
}

} // verus!
