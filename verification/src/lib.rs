//! A multi-tenant data-access layer for a document-oriented store.
//!
//! A request [`ctx::Ctx`] selects the tenant database; typed records are
//! shaped into store documents (absent fields omitted, nested records
//! flattened into dotted paths, caller-facing identifiers translated into
//! the store-native form) and applied through a generic CRUD engine.


pub mod base;
pub mod ctx;
pub mod dummy;
pub mod error;
pub mod example;
pub mod laws;
pub mod oid;
pub mod rpc;
pub mod schema;
pub mod store;
pub mod user;
pub mod value;
