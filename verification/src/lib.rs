//! Field-level authorization for GraphQL-style queries.
//!
//! Given a query document, a schema document and a per-type allow-list of
//! permitted field names, the library decides whether the query may execute:
//! it walks the query's selection sets, resolves each field's declared type
//! against the schema, and confirms every selected field is permitted for its
//! parent type.  A companion extractor flattens a provider-specific claims
//! value into a set of role strings; a caller holding the configured bypass
//! role skips validation entirely.

pub mod allowlist;
pub mod ast;
pub mod claims;
pub mod decide;
pub mod laws;
pub mod parse;
pub mod resolve;
pub mod strutil;
pub mod validate;
