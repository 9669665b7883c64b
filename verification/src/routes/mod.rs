//! The rules behind each group of `/api/*` endpoints.
pub mod blog;
pub mod dashboard;
pub mod github;
pub mod portfolio;
pub mod tools;
