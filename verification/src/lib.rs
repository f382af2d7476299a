//! Core of a small query-execution gateway.
//!
//! Clients send a query document naming one operation on a user store
//! (`users`, `user(id)`, or `createUser(input)`) together with the entity
//! fields they want back. The library validates the document against the
//! schema, dispatches it to the bound resolver, runs the resolver's single
//! data-access call through a bounded connection pool, and assembles a
//! response envelope (`data` plus a list of errors) that mirrors the
//! requested field selection. Transport (HTTP, JSON encoding) and the
//! physical database live outside this crate; the store and pool here are
//! the models those adapters drive.

pub mod context;
pub mod document;
pub mod engine;
pub mod errors;
pub mod laws;
pub mod parse;
pub mod pool;
pub mod resolvers;
pub mod response;
pub mod schema;
pub mod store;
pub mod user;
