//! Ownership-gated access to todo rows.
//!
//! Who owns which row is recorded in a relation-tuple service, apart from the
//! rows themselves. This crate holds the decisions: which request to send
//! next, how to read each reply, and when an operation is allowed, done or
//! failed. Sending the requests is left to the caller.

pub mod auth;
pub mod cors;
pub mod enrich;
pub mod errors;
pub mod handlers;
pub mod http;
pub mod json;
pub mod keto;
pub mod kratos;
pub mod models;
pub mod supabase;
pub mod text;
pub mod todo_repo;
pub mod tuple_service;
pub mod user_repo;
