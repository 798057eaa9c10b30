//! A validated CRUD core for a "users" resource.
//!
//! The library holds the logic of the service: the user record model, the
//! request validation rules, the five CRUD operations over a well-formed
//! user table, and the uniform error envelope.  The HTTP surface and the
//! process configuration live outside, in an ordinary Rust shell that calls
//! into these verified functions.

pub mod clock;
pub mod config;
pub mod error;
pub mod handlers;
pub mod laws;
pub mod models;
pub mod store;
