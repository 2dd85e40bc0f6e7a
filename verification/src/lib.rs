//! Compiles a backend-neutral query description (a filter tree, sort keys and
//! distinct keys) into parameterised SQL text for a relational store.

pub mod builder;
pub mod filter;
pub mod lemmas;
pub mod query;
pub mod schema;
pub mod scan;
pub mod sql;
pub mod text;
pub mod value;
