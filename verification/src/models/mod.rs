//! The data the blog stores and answers with.
pub mod blog;
