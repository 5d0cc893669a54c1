//! The services of the application, as decisions over plain values.
pub mod auth;
pub mod draws;
pub mod flow;
pub mod laws;
pub mod machine_laws;
pub mod oauth;
pub mod store;
pub mod tables;
pub mod token;
pub mod user;
