//! Client-side data model for a JSON-LD flavoured connector management protocol:
//! typed property bags over dynamic values, the `@context` envelope and the
//! flattening of catalog documents.
pub mod types;
