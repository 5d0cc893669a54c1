//! The endpoints: what each request comes to.
pub mod admin;
pub mod auth;
pub mod laws;
pub mod users;
