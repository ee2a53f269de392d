//! Client-side support for OAuth2-protected, multi-tenant REST APIs.

pub mod apis;
pub mod auth;
pub mod azure;
pub mod cache;
pub mod client;
pub mod commands;
pub mod error;
pub mod http;
pub mod oauth;
pub mod text;
pub mod types;
