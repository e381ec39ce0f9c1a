pub mod config;
pub mod domain;
pub mod driven;
pub mod driving;
pub mod text;
