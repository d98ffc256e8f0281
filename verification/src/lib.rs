//! Translation between the Anthropic Messages API and an OpenAI-compatible
//! Chat Completions API, as spoken by the Regolo proxy, with the decisions
//! of its command line and HTTP endpoints.

pub mod json;
pub mod text;
pub mod request;
pub mod response;
pub mod proxy;
pub mod auth;
pub mod cli;
pub mod laws;
pub mod translation_laws;
