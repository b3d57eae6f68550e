//! A reverse proxy whose upstream is named in the request path, with a
//! rule engine that decides which requests are dropped, which are logged,
//! and which responses are logged.

pub mod text;
pub mod matcher;
pub mod config;
pub mod rules;
pub mod handlers;
pub mod env;
