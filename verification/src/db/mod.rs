//! What is kept in the question store.
pub mod models;
