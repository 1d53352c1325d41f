//! A minimal HTTP service core: four fixed routes, a uniform response
//! encoder, a persistence adapter for a single `persons` table, and a
//! mustache template rendering step.
//!
//! The library holds the request-handling logic: route dispatch, the typed
//! outcome and failure values each handler produces, and the encoding of
//! those values into wire-level responses. The surrounding binary supplies
//! the HTTP listener and the database connection and hands their results in
//! as plain values.

pub mod encode;
pub mod handlers;
pub mod json;
pub mod listing;
pub mod router;
pub mod store;
pub mod template;
pub mod text;
pub mod types;
