//! A verified core for a small property-listing CRUD service.
//!
//! The library models the `collections` table, its input schemas, the
//! merge-on-update rule, and the HTTP status envelope, and proves the
//! service-level guarantees (round trips, not-found behaviour, and the
//! well-formedness of the table) against that model.

pub mod api;
pub mod labels;
pub mod laws;
pub mod model;
pub mod store;
