//! Turns parsed material, mesh, model and metadata documents into the ordered
//! rows of a relational material database.
pub mod builder;
pub mod document;
pub mod fanout;
pub mod keys;
pub mod loader;
pub mod records;
pub mod expand;
pub mod rows;
pub mod schema;
pub mod sql;
