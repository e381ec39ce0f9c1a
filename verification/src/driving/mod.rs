pub mod rest_handler;
