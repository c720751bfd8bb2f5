//! The entry points that the routes are hung on.

pub mod user_controller;

pub use user_controller::UserController;
