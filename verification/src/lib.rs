//! Transactional core of a payment-orchestration service.
//!
//! The central piece is the Confirm operation: it takes a client's
//! confirmation request, resolves all prerequisite state from the entity
//! store, decides whether to reuse or create a new payment attempt, enriches
//! the working record with domain data, computes the status transition and
//! commits it.  The entity store is modelled in [`store`]; the surrounding
//! service (HTTP routing, database drivers, connector calls) lives outside
//! this crate and hands plain values in and out.

pub mod status;
pub mod records;
pub mod request;
pub mod errors;
pub mod store;
pub mod working;
pub mod validate;
pub mod versioning;
pub mod enrich;
pub mod confirm;
pub mod laws;
pub mod health;
pub mod user_role;
