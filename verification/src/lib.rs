//! A small HTTP redirect gateway core: an ordered list of regex redirect
//! rules, loaded once from configuration, matched first-match-wins against
//! the effective URL (host + path and query) of each request.

pub mod config;
pub mod redirector;
pub mod rewrite;
