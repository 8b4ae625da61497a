//! Core logic of a Bitwarden-compatible server running on Cloudflare Workers:
//! notification messages and how they are addressed, which requests are
//! streamed transfers, the decisions of request handlers, and the text
//! handling they rest on.
pub mod auth_requests;
pub mod client_context;
pub mod device;
pub mod error;
pub mod models;
pub mod msgpack;
pub mod notifications;
pub mod streaming;
pub mod text;
pub mod token;
pub mod transfers;
