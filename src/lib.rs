//! Safe SQL construction for a content-management storage layer: validated
//! identifiers and text, a predicate tree compiled to parameterized SQL for
//! three dialects, and a dialect-neutral schema model rendered to DDL.

pub mod text;
pub mod error;
pub mod validator;
pub mod identifier;
pub mod value;
pub mod predicate;
pub mod query;
pub mod schema;
pub mod content_schema;
pub mod fields;
pub mod relational;
pub mod config;
pub mod records;
pub mod password;
pub mod content_queries;
