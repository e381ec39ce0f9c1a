use sandwich_service::domain::create_sandwich::{create_sandwich, CreateError};
use sandwich_service::domain::delete_one_sandwich::delete_one_sandwich;
use sandwich_service::domain::find_all_sandwiches::find_all_sandwiches;
use sandwich_service::domain::find_one_sandwich::find_one_sandwich;
use sandwich_service::domain::sandwich::{Sandwich, SandwichType};

const SANDWICH_ID: &str = "61c0d2a2a6b5a3b4c5d6e7f8";
const SANDWICH_NAME: &str = "Hot dog";
const SANDWICH_TYPE: SandwichType = SandwichType::Meat;

fn stub_ingredients() -> Vec<String> {
    vec!["Wurst".to_string(), "Ketchup".to_string()]
}

fn string_vec_to_vec_str(v: &Vec<String>) -> Vec<&str> {
    v.iter().map(|s| s.as_str()).collect()
}

fn stub_sandwich(with_id: bool) -> Sandwich {
    let id = if with_id { SANDWICH_ID.to_string() } else { String::new() };
    Sandwich::new(id, SANDWICH_NAME.to_string(), stub_ingredients(), SANDWICH_TYPE).unwrap()
}

fn assert_on_sandwich(expected: Sandwich, actual: &Sandwich, check_id: bool) {
    if check_id {
        assert_eq!(actual.id(), expected.id());
    }
    assert_eq!(actual.name(), expected.name());
    assert_eq!(actual.ingredients(), expected.ingredients());
    assert_eq!(actual.sandwich_type(), expected.sandwich_type());
}

#[test]
fn should_delete_a_sandwich() {
    match delete_one_sandwich(SANDWICH_ID) {
        Ok(()) => {}
        _ => unreachable!(),
    }
}

#[test]
fn find_all_sandwiches_should_find_all_sandwiches() {
    let sand_list = find_all_sandwiches("", &vec![]).unwrap();

    assert_eq!(sand_list.len(), 0);
}

#[test]
fn should_create_the_expected_sandwich() {
    let ingredients = stub_ingredients();
    let ingredients = string_vec_to_vec_str(&ingredients);

    match find_one_sandwich("", SANDWICH_NAME, &ingredients) {
        Ok(s) => assert_on_sandwich(stub_sandwich(false), &s, false),
        Err(_) => unreachable!(),
    }
}

#[test]
fn find_one_keeps_a_given_identifier() {
    let ingredients = vec!["Tuna"];
    let s = find_one_sandwich(SANDWICH_ID, "Tuna melt", &ingredients).unwrap();
    assert_eq!(s.id(), &Some(SANDWICH_ID.to_string()));
    assert_eq!(s.name(), "Tuna melt");
    assert_eq!(s.ingredients(), &vec!["Tuna".to_string()]);
    assert_eq!(s.sandwich_type(), SandwichType::Meat);
}

#[test]
fn new_sandwich_without_identifier_has_none() {
    let s = stub_sandwich(false);
    assert_eq!(s.id(), &None);
    let s = stub_sandwich(true);
    assert_eq!(s.id(), &Some(SANDWICH_ID.to_string()));
}

#[test]
fn new_sandwich_needs_a_name() {
    let r = Sandwich::new(String::new(), String::new(), stub_ingredients(), SandwichType::Fish);
    assert_eq!(r.unwrap_err(), "Any sandwich must have a name");
}

#[test]
fn new_sandwich_needs_an_ingredient() {
    let r = Sandwich::new(String::new(), "Plain".to_string(), vec![], SandwichType::Veggie);
    assert_eq!(r.unwrap_err(), "Any sandwich must have at least one ingredient");
}

#[test]
fn new_sandwich_checks_the_name_first() {
    let r = Sandwich::new(String::new(), String::new(), vec![], SandwichType::Veggie);
    assert_eq!(r.unwrap_err(), "Any sandwich must have a name");
}

#[test]
fn duplicate_keeps_every_field() {
    let s = stub_sandwich(true);
    let d = s.duplicate();
    assert_on_sandwich(s, &d, true);
}

#[test]
fn create_sandwich_builds_a_sandwich_without_identifier() {
    let ingredients = vec!["Lettuce", "Tomato"];
    let s = create_sandwich("Garden", &ingredients, &SandwichType::Veggie).unwrap();
    assert_eq!(s.id(), &None);
    assert_eq!(s.name(), "Garden");
    assert_eq!(s.ingredients(), &vec!["Lettuce".to_string(), "Tomato".to_string()]);
    assert_eq!(s.sandwich_type(), SandwichType::Veggie);
}

#[test]
fn create_sandwich_reports_invalid_data() {
    let ingredients: Vec<&str> = vec![];
    match create_sandwich("Empty", &ingredients, &SandwichType::Fish) {
        Err(CreateError::InvalidData(m)) => assert_eq!(m, "Any sandwich must have at least one ingredient"),
        other => panic!("unexpected {:?}", other),
    }
}
