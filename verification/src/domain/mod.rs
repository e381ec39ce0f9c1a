pub mod create_sandwich;
pub mod delete_one_sandwich;
pub mod find_all_sandwiches;
pub mod find_one_sandwich;
pub mod sandwich;
