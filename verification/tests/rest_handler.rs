use sandwich_service::domain::create_sandwich::CreateError;
use sandwich_service::domain::find_all_sandwiches::FindAllError;
use sandwich_service::domain::find_one_sandwich::FindOneError;
use sandwich_service::domain::sandwich::{Sandwich, SandwichType};
use sandwich_service::driving::rest_handler::errors::{ApiError, ErrorBody, ErrorResponse};
use sandwich_service::driving::rest_handler::sandwiches::{
    api_error_from_create_error, api_error_from_find_all_error, api_error_from_find_one_error,
    create_sandwich_response, find_one_response, find_sandwiches_response, CreateSandwichRequest,
    FindSandwichRequest, SandwichListResponse, SandwichResponse,
};

fn request(name: &str, ingredients: Vec<&str>) -> CreateSandwichRequest {
    CreateSandwichRequest {
        name: name.to_string(),
        ingredients: ingredients.into_iter().map(|s| s.to_string()).collect(),
        sandwich_type: SandwichType::Veggie,
    }
}

#[test]
fn api_error_text_has_a_comma_and_newline() {
    assert_eq!(ApiError::NotFound("gone".to_string()).to_string(), "gone,\n");
    assert_eq!(ApiError::Unknown(String::new()).to_string(), ",\n");
}

#[test]
fn api_error_text_of_validation_messages() {
    let e = ApiError::ValidationError(vec!["a".to_string(), "b".to_string()]);
    assert_eq!(e.to_string(), "a, \nb, \n");
    assert_eq!(ApiError::ValidationError(vec![]).to_string(), "");
}

#[test]
fn api_error_responses() {
    let cases = vec![
        (ApiError::BadRequest("x".to_string()), 400),
        (ApiError::NotFound("x".to_string()), 404),
        (ApiError::InternalServerError("x".to_string()), 500),
        (ApiError::Conflict("x".to_string()), 409),
        (ApiError::InvalidData("x".to_string()), 400),
    ];
    for (e, status) in cases {
        assert_eq!(e.error_response(), ErrorResponse { status, body: ErrorBody::Message("x".to_string()) });
    }
    assert_eq!(
        ApiError::ValidationError(vec!["m".to_string()]).error_response(),
        ErrorResponse { status: 422, body: ErrorBody::Messages(vec!["m".to_string()]) }
    );
    assert_eq!(
        ApiError::Unknown("hidden".to_string()).error_response(),
        ErrorResponse { status: 500, body: ErrorBody::Empty }
    );
}

#[test]
fn validation_accepts_a_good_request() {
    assert_eq!(request("BLT", vec!["Bacon"]).validate(), Ok(()));
}

#[test]
fn validation_lists_every_problem_in_field_order() {
    assert_eq!(
        request("Ab", vec![]).validate(),
        Err(ApiError::ValidationError(vec![
            "name is required and must be at least 3 characters".to_string(),
            "ingredients is required and must be at least 1 character".to_string(),
        ]))
    );
    assert_eq!(
        request("Abc", vec![]).validate(),
        Err(ApiError::ValidationError(vec!["ingredients is required and must be at least 1 character".to_string()]))
    );
}

#[test]
fn validation_counts_characters_not_bytes() {
    assert!(request("Äö", vec!["x"]).validate().is_err());
    assert!(request("Äöü", vec!["x"]).validate().is_ok());
}

#[test]
fn response_of_a_sandwich_without_identifier_has_an_empty_one() {
    let s = Sandwich::new(String::new(), "Club".to_string(), vec!["Ham".to_string()], SandwichType::Meat).unwrap();
    let r = SandwichResponse::from(s);
    assert_eq!(
        r,
        SandwichResponse {
            id: String::new(),
            name: "Club".to_string(),
            ingredients: vec!["Ham".to_string()],
            sandwich_type: SandwichType::Meat,
        }
    );
}

#[test]
fn list_response_keeps_order() {
    let a = Sandwich::new("1".to_string(), "A".to_string(), vec!["x".to_string()], SandwichType::Meat).unwrap();
    let b = Sandwich::new("2".to_string(), "B".to_string(), vec!["y".to_string()], SandwichType::Fish).unwrap();
    let list = SandwichListResponse::from(vec![a, b]);
    assert_eq!(list.sandwiches().len(), 2);
    assert_eq!(list.sandwiches()[0].id, "1");
    assert_eq!(list.sandwiches()[1].name, "B");
}

#[test]
fn create_response_for_a_good_request() {
    let r = create_sandwich_response(&request("Garden", vec!["Lettuce"])).unwrap();
    assert_eq!(r.id, "");
    assert_eq!(r.name, "Garden");
    assert_eq!(r.ingredients, vec!["Lettuce".to_string()]);
    assert_eq!(r.sandwich_type, SandwichType::Veggie);
}

#[test]
fn create_response_for_a_bad_request() {
    assert_eq!(
        create_sandwich_response(&request("G", vec!["Lettuce"])),
        Err(ApiError::ValidationError(vec!["name is required and must be at least 3 characters".to_string()]))
    );
}

#[test]
fn find_sandwiches_response_is_empty() {
    let req = FindSandwichRequest { name: None, ingredients: None, sandwich_type: None };
    assert_eq!(find_sandwiches_response(&req).unwrap().sandwiches().len(), 0);
    let req = FindSandwichRequest {
        name: Some("Club".to_string()),
        ingredients: Some(vec!["Ham".to_string()]),
        sandwich_type: Some(SandwichType::Meat),
    };
    assert_eq!(find_sandwiches_response(&req).unwrap(), SandwichListResponse::new(vec![]));
}

#[test]
fn find_one_response_echoes_the_criteria() {
    let r = find_one_response("abc", "Club", &vec!["Ham"]).unwrap();
    assert_eq!(r.id, "abc");
    assert_eq!(r.name, "Club");
    assert_eq!(r.sandwich_type, SandwichType::Meat);
}

#[test]
fn domain_errors_become_api_errors() {
    assert_eq!(api_error_from_create_error(CreateError::Unknown("u".to_string())), ApiError::Unknown("u".to_string()));
    assert_eq!(api_error_from_create_error(CreateError::InvalidData("i".to_string())), ApiError::InvalidData("i".to_string()));
    assert_eq!(api_error_from_create_error(CreateError::Conflict("c".to_string())), ApiError::Conflict("c".to_string()));
    assert_eq!(api_error_from_find_all_error(FindAllError::Unknown("u".to_string())), ApiError::Unknown("u".to_string()));
    assert_eq!(
        api_error_from_find_one_error(FindOneError::NotFound),
        ApiError::NotFound("No sandwich found with the specified criteria".to_string())
    );
    assert_eq!(api_error_from_find_one_error(FindOneError::Unknown("u".to_string())), ApiError::Unknown("u".to_string()));
}
