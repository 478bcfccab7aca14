//! Protocol core of a client for the Ollama REST API.
//!
//! The crate holds everything about the API that can be decided without
//! touching the network: the data model, the JSON payload codec, the
//! interpretation of status codes, and the exchange engine that turns a
//! sequence of response chunks into delivered chunks and a final result.
//! Performing the HTTP exchange itself is left to the caller.

pub mod codec;
pub mod engine;
pub mod errors;
pub mod host;
pub mod json;
pub mod models;
pub mod operations;
pub mod text;
