//! Property-management back office: generic list, get, create, update and
//! delete over a fixed set of entity types, with safe construction of the
//! SQL statements, and the audit record of every mutation.
//!
//! The library decides and the caller performs: a request becomes a
//! statement with its bound values, and what the store returned becomes a
//! response. Column and table names in a statement come from an entity's
//! schema alone; whatever a request holds is bound as a parameter.

pub mod audit;
pub mod crop;
pub mod crud;
pub mod entities;
pub mod error;
pub mod export;
pub mod filters;
pub mod invoices;
pub mod jobs;
pub mod json;
pub mod laws;
pub mod pages;
pub mod partials;
pub mod pdf_text;
pub mod query;
pub mod results;
pub mod schema;
pub mod session;
pub mod text;
pub mod types;
pub mod words;
