pub mod errors;
pub mod sandwiches;
