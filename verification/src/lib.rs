//! Subscriber sign-up: validated names and email addresses, and the
//! admission rules that turn a sign-up request into a stored subscription.

pub mod config;
pub mod domain;
pub mod routes;
pub mod text;
