//! A typed client library for a LuckPerms-style permissions REST service.
//!
//! The library models the service's records, builds the exact HTTP request
//! (method, path, query, JSON body) for each remote operation, and classifies
//! responses (status and body) into typed results or errors. Sending a request
//! over the network is left to the embedding program.
pub mod ext;
pub mod json;
pub mod models;
pub mod codec;
pub mod requests;
pub mod errors;
pub mod client;
