//! Verified core of the pavkhemerak.dev backend API: the rules behind the
//! blog, dashboard, portfolio, GitHub feed and security-tool endpoints.
pub mod config;
pub mod db;
pub mod error;
pub mod json;
pub mod models;
pub mod routes;
pub mod text;
