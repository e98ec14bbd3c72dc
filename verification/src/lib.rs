//! A verified core for a hierarchical data-catalog client.
//!
//! The library resolves read/write permissions for dot-qualified securable
//! names (catalog, catalog.schema, catalog.schema.table) against owner
//! records and privilege grants fetched from a metadata service, and it
//! assembles a single in-memory table out of the columnar data files that
//! back a table. All decision and assembly logic lives here, verified;
//! the HTTP, object-store and SQL plumbing around it stays in the
//! accompanying application crate.

pub mod api_client;
pub mod authorize;
pub mod credential_service;
pub mod endpoints;
pub mod errors;
pub mod frames;
pub mod metastore;
pub mod permissions;
pub mod reader;
pub mod securable;
pub mod sql;
pub mod text;

pub use errors::CatalogError;
