//! The pages of the application, each with its model and its update rule.
pub mod config;
pub mod login;
pub mod workout;
