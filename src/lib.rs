//! A client library for a snippet-management REST service: request building,
//! response classification, multipart upload planning, the two-step login
//! exchange and the credential store's rules.

pub mod api_client;
pub mod auth;
pub mod cli;
pub mod config;
pub mod errors;
pub mod json;
pub mod listing;
pub mod models;
pub mod multipart;
pub mod request;
pub mod response;
pub mod validate;
