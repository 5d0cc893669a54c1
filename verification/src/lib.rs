//! Identity management: accounts, credentials, tokens and OAuth 2.0 logins.
pub mod config;
pub mod errors;
pub mod middleware;
pub mod models;
pub mod outside;
pub mod routes;
pub mod services;
pub mod state;
pub mod text;
