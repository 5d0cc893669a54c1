//! The calls into outside crates.
//!
//! Each function here hands plain values to one outside function and states
//! what that function promises of its result. Results that take too long to
//! spell out have a name, which the rest of the library speaks of.
pub mod authorization;
pub mod clock;
pub mod headers;
pub mod identifiers;
pub mod json;
pub mod jwt;
pub mod password;
pub mod random;
