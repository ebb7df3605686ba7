//! The Daraja API: its payloads, result codes, and the client-side logic
//! around OAuth tokens.
pub mod client;
pub mod models;
pub mod result_code;
