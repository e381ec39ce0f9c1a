//! The sandwich requests and responses of the REST interface, and what each handler
//! answers. Reading the request and writing the JSON reply is left to the HTTP server.
use vstd::prelude::*;

use crate::domain::create_sandwich::{create_sandwich, created_sandwich, CreateError};
use crate::domain::find_all_sandwiches::{find_all_sandwiches, FindAllError};
use crate::domain::find_one_sandwich::{find_one_sandwich, FindOneError};
use crate::domain::sandwich::{Sandwich, SandwichType, SandwichView};
use crate::driving::rest_handler::errors::{ApiError, ApiErrorView};
use crate::text::{clone_strings, strings_as_strs, strings_view, strs_view};

verus! {

/// A request to create a sandwich.
#[derive(Clone, Debug)]
pub struct CreateSandwichRequest {
    pub name: String,
    pub ingredients: Vec<String>,
    pub sandwich_type: SandwichType,
}

/// The message for a name that is too short.
pub open spec fn short_name_message() -> Seq<char> {
    "name is required and must be at least 3 characters"@
}

/// The message for a missing ingredient list.
pub open spec fn missing_ingredients_request_message() -> Seq<char> {
    "ingredients is required and must be at least 1 character"@
}

/// The problems of a creation request, in field order: the name needs at least three
/// characters, the ingredient list at least one entry.
pub open spec fn create_request_problems(name: Seq<char>, ingredients: Seq<Seq<char>>) -> Seq<Seq<char>> {
    (if name.len() < 3 { seq![short_name_message()] } else { Seq::empty() })
        + (if ingredients.len() < 1 { seq![missing_ingredients_request_message()] } else { Seq::empty() })
}

/// A creation request has no problem exactly when its name has at least three characters
/// and at least one ingredient is given; each broken rule gives one problem.
pub proof fn lemma_request_accepted_exactly_when_rules_hold(name: Seq<char>, ingredients: Seq<Seq<char>>)
    ensures
        (create_request_problems(name, ingredients).len() == 0) <==> (name.len() >= 3 && ingredients.len() >= 1),
        create_request_problems(name, ingredients).len() == (if name.len() < 3 { 1int } else { 0int })
            + (if ingredients.len() < 1 { 1int } else { 0int }),
{
}

/// Adding ingredients to a request, or characters to its name, never adds a problem.
pub proof fn lemma_request_problems_shrink_as_request_grows(
    name: Seq<char>,
    ingredients: Seq<Seq<char>>,
    more_name: Seq<char>,
    more_ingredients: Seq<Seq<char>>,
)
    ensures
        create_request_problems(name + more_name, ingredients + more_ingredients).len()
            <= create_request_problems(name, ingredients).len(),
{
}

/// Calls `validator::validate_length` with a lower bound only, as `#[validate(length(min))]`
/// does for a `String`. Trusted: the check is that the string has at least `min`
/// characters (it counts `chars()`).
#[verifier::external_body]
fn has_min_chars(value: &String, min: u64) -> (r: bool)
    ensures
        r == (value@.len() >= min),
{
    validator::validate_length(value, Some(min), None, None)
}

/// Calls `validator::validate_length` with a lower bound only, as `#[validate(length(min))]`
/// does for a `Vec`. Trusted: the check is that the list has at least `min` entries.
#[verifier::external_body]
fn has_min_entries(value: &Vec<String>, min: u64) -> (r: bool)
    ensures
        r == (value@.len() >= min),
{
    validator::validate_length(value, Some(min), None, None)
}

impl CreateSandwichRequest {
    /// Checks the request: a validation error lists the messages of the rules broken.
    pub fn validate(&self) -> (r: Result<(), ApiError>)
        ensures
            create_request_problems(self.name@, strings_view(self.ingredients@)).len() == 0 ==> r is Ok,
            create_request_problems(self.name@, strings_view(self.ingredients@)).len() > 0 ==> (r matches Err(e)
                && e@ == ApiErrorView::ValidationError(create_request_problems(self.name@, strings_view(self.ingredients@)))),
    {
        let mut problems: Vec<String> = Vec::new();
        if !has_min_chars(&self.name, 3) {
            problems.push("name is required and must be at least 3 characters".to_owned());
        }
        if !has_min_entries(&self.ingredients, 1) {
            problems.push("ingredients is required and must be at least 1 character".to_owned());
        }
        proof {
            assert(strings_view(problems@) =~= create_request_problems(self.name@, strings_view(self.ingredients@)));
        }
        if problems.len() == 0 {
            Ok(())
        } else {
            Err(ApiError::ValidationError(problems))
        }
    }
}

/// A sandwich as the REST interface answers it; a sandwich without an identifier has an
/// empty one.
#[derive(Debug, PartialEq)]
pub struct SandwichResponse {
    pub id: String,
    pub name: String,
    pub ingredients: Vec<String>,
    pub sandwich_type: SandwichType,
}

/// A sandwich answer as mathematical values.
pub struct SandwichResponseView {
    pub id: Seq<char>,
    pub name: Seq<char>,
    pub ingredients: Seq<Seq<char>>,
    pub sandwich_type: SandwichType,
}

impl View for SandwichResponse {
    type V = SandwichResponseView;

    open spec fn view(&self) -> SandwichResponseView {
        SandwichResponseView {
            id: self.id@,
            name: self.name@,
            ingredients: strings_view(self.ingredients@),
            sandwich_type: self.sandwich_type,
        }
    }
}

/// The answer for a sandwich.
pub open spec fn response_of(s: SandwichView) -> SandwichResponseView {
    SandwichResponseView {
        id: match s.id {
            Some(id) => id,
            None => Seq::empty(),
        },
        name: s.name,
        ingredients: s.ingredients,
        sandwich_type: s.sandwich_type,
    }
}

/// The answer for a sandwich carries its name, its ingredients and its kind unchanged, and
/// its identifier, or empty text when it has none.
pub proof fn lemma_answer_keeps_the_sandwich(s: SandwichView)
    ensures
        response_of(s).name == s.name,
        response_of(s).ingredients == s.ingredients,
        response_of(s).sandwich_type == s.sandwich_type,
        s.id matches Some(id) ==> response_of(s).id == id,
        s.id is None ==> response_of(s).id.len() == 0,
{
}

/// Sandwiches of different kinds, names or ingredients get answers that differ the same way.
pub proof fn lemma_answers_tell_sandwiches_apart(a: SandwichView, b: SandwichView)
    ensures
        a.sandwich_type != b.sandwich_type ==> response_of(a).sandwich_type != response_of(b).sandwich_type,
        a.name != b.name ==> response_of(a).name != response_of(b).name,
        a.ingredients != b.ingredients ==> response_of(a).ingredients != response_of(b).ingredients,
{
}

impl SandwichResponse {
    /// The answer for a sandwich.
    pub fn from(s: Sandwich) -> (r: SandwichResponse)
        ensures
            r@ == response_of(s@),
    {
        let id = match s.id() {
            Some(id) => id.clone(),
            None => String::new(),
        };
        SandwichResponse {
            id,
            name: s.name().clone(),
            ingredients: clone_strings(s.ingredients()),
            sandwich_type: s.sandwich_type(),
        }
    }
}

/// A sandwich created through the REST interface is answered with an empty identifier:
/// the store has not given it one yet.
pub proof fn lemma_created_answer_has_no_id(name: Seq<char>, ingredients: Seq<Seq<char>>, sandwich_type: SandwichType)
    requires
        created_sandwich(name, ingredients, sandwich_type) is Ok,
    ensures
        response_of(created_sandwich(name, ingredients, sandwich_type)->Ok_0).id == Seq::<char>::empty(),
{
}

/// A request to list sandwiches; what is left out does not restrict the list.
#[derive(Clone, Debug)]
pub struct FindSandwichRequest {
    pub name: Option<String>,
    pub ingredients: Option<Vec<String>>,
    pub sandwich_type: Option<SandwichType>,
}

/// A list of sandwiches as the REST interface answers it.
#[derive(Debug, PartialEq)]
pub struct SandwichListResponse {
    sandwiches: Vec<SandwichResponse>,
}

impl View for SandwichListResponse {
    type V = Seq<SandwichResponseView>;

    closed spec fn view(&self) -> Seq<SandwichResponseView> {
        self.sandwiches@.map_values(|r: SandwichResponse| r@)
    }
}

impl SandwichListResponse {
    /// The answer for a list of sandwiches, in the same order.
    pub fn from(v: Vec<Sandwich>) -> (r: SandwichListResponse)
        ensures
            r@ == v@.map_values(|s: Sandwich| response_of(s@)),
    {
        let mut sandwiches: Vec<SandwichResponse> = Vec::new();
        let count: usize = v.len();
        let mut rest = v;
        let ghost original = rest@;
        let mut taken: usize = 0;
        while rest.len() > 0
            invariant
                original.len() == count,
                taken + rest@.len() == original.len(),
                rest@ == original.subrange(taken as int, original.len() as int),
                sandwiches@.map_values(|r: SandwichResponse| r@)
                    == original.subrange(0, taken as int).map_values(|s: Sandwich| response_of(s@)),
            decreases rest@.len(),
        {
            let s = rest.remove(0);
            let answer = SandwichResponse::from(s);
            proof {
                assert(original.subrange(0, taken as int + 1) =~= original.subrange(0, taken as int).push(s));
                assert(sandwiches@.push(answer).map_values(|r: SandwichResponse| r@)
                    =~= sandwiches@.map_values(|r: SandwichResponse| r@).push(answer@));
                assert(original.subrange(0, taken as int).push(s).map_values(|s: Sandwich| response_of(s@))
                    =~= original.subrange(0, taken as int).map_values(|s: Sandwich| response_of(s@)).push(response_of(s@)));
            }
            sandwiches.push(answer);
            taken = taken + 1;
            proof {
                assert(rest@ =~= original.subrange(taken as int, original.len() as int));
            }
        }
        proof {
            assert(original.subrange(0, taken as int) =~= original);
        }
        SandwichListResponse { sandwiches }
    }

    /// A list answer holding the given sandwich answers.
    pub fn new(sandwiches: Vec<SandwichResponse>) -> (r: SandwichListResponse)
        ensures
            r@ == sandwiches@.map_values(|s: SandwichResponse| s@),
    {
        SandwichListResponse { sandwiches }
    }

    /// The sandwich answers, in order.
    pub fn sandwiches(&self) -> (r: &Vec<SandwichResponse>)
        ensures
            r@.map_values(|s: SandwichResponse| s@) == self@,
    {
        &self.sandwiches
    }
}

/// The REST error for a failed creation.
pub fn api_error_from_create_error(e: CreateError) -> (r: ApiError)
    ensures
        match e {
            CreateError::Unknown(m) => r@ == ApiErrorView::Unknown(m@),
            CreateError::InvalidData(m) => r@ == ApiErrorView::InvalidData(m@),
            CreateError::Conflict(m) => r@ == ApiErrorView::Conflict(m@),
        },
{
    match e {
        CreateError::Unknown(m) => ApiError::Unknown(m),
        CreateError::InvalidData(m) => ApiError::InvalidData(m),
        CreateError::Conflict(m) => ApiError::Conflict(m),
    }
}

/// The REST error for a failed listing.
pub fn api_error_from_find_all_error(e: FindAllError) -> (r: ApiError)
    ensures
        match e {
            FindAllError::Unknown(m) => r@ == ApiErrorView::Unknown(m@),
        },
{
    match e {
        FindAllError::Unknown(m) => ApiError::Unknown(m),
    }
}

/// The message for a search that found nothing.
pub open spec fn not_found_message() -> Seq<char> {
    "No sandwich found with the specified criteria"@
}

/// The REST error for a failed search.
pub fn api_error_from_find_one_error(e: FindOneError) -> (r: ApiError)
    ensures
        match e {
            FindOneError::Unknown(m) => r@ == ApiErrorView::Unknown(m@),
            FindOneError::NotFound => r@ == ApiErrorView::NotFound(not_found_message()),
        },
{
    match e {
        FindOneError::Unknown(m) => ApiError::Unknown(m),
        FindOneError::NotFound => ApiError::NotFound("No sandwich found with the specified criteria".to_owned()),
    }
}

/// What the creation handler answers: the validation problems, or the new sandwich, or
/// the rule it breaks as invalid data.
pub fn create_sandwich_response(request: &CreateSandwichRequest) -> (r: Result<SandwichResponse, ApiError>)
    ensures
        create_request_problems(request.name@, strings_view(request.ingredients@)).len() > 0 ==> (r matches Err(e)
            && e@ == ApiErrorView::ValidationError(create_request_problems(request.name@, strings_view(request.ingredients@)))),
        create_request_problems(request.name@, strings_view(request.ingredients@)).len() == 0 ==> match created_sandwich(
            request.name@,
            strings_view(request.ingredients@),
            request.sandwich_type,
        ) {
            Ok(s) => r matches Ok(answer) && answer@ == response_of(s),
            Err(m) => r matches Err(e) && e@ == ApiErrorView::InvalidData(m),
        },
{
    match request.validate() {
        Ok(()) => {},
        Err(e) => {
            return Err(e);
        },
    }
    let ingredients = strings_as_strs(&request.ingredients);
    match create_sandwich(request.name.as_str(), &ingredients, &request.sandwich_type) {
        Ok(s) => Ok(SandwichResponse::from(s)),
        Err(e) => Err(api_error_from_create_error(e)),
    }
}

/// What the listing handler answers: a missing name or ingredient list means any.
pub fn find_sandwiches_response(request: &FindSandwichRequest) -> (r: Result<SandwichListResponse, ApiError>)
    ensures
        r matches Ok(list) && list@.len() == 0,
{
    let name: &str = match &request.name {
        Some(n) => n.as_str(),
        None => "",
    };
    let ingredients: Vec<&str> = match &request.ingredients {
        Some(i) => strings_as_strs(i),
        None => Vec::new(),
    };
    match find_all_sandwiches(name, &ingredients) {
        Ok(v) => {
            let list = SandwichListResponse::from(v);
            proof {
                assert(list@.len() == 0);
            }
            Ok(list)
        },
        Err(e) => Err(api_error_from_find_all_error(e)),
    }
}

/// What the search handler answers for an identifier, a name and ingredients. The name and
/// the ingredients must make a valid sandwich.
pub fn find_one_response(id: &str, name: &str, ingredients: &Vec<&str>) -> (r: Result<SandwichResponse, ApiError>)
    requires
        name@.len() > 0,
        ingredients@.len() > 0,
    ensures
        r matches Ok(answer) && answer@ == (SandwichResponseView {
            id: id@,
            name: name@,
            ingredients: strs_view(ingredients@),
            sandwich_type: SandwichType::Meat,
        }),
{
    match find_one_sandwich(id, name, ingredients) {
        Ok(s) => {
            proof {
                if id@.len() == 0 {
                    assert(id@ =~= Seq::<char>::empty());
                }
            }
            Ok(SandwichResponse::from(s))
        },
        Err(e) => Err(api_error_from_find_one_error(e)),
    }
}

} // verus!
