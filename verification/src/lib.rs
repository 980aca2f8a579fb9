//! The decision core of a REST front door: how request failures become
//! wire-level errors, how route groups are tried, how responses are decorated,
//! and how connections and the server itself move through their states.
//!
//! Every function here is proved against its contract. Network and file
//! access stay with the caller, who hands in plain values and acts on the
//! answers.

pub mod classifier;
pub mod compression;
pub mod cors;
pub mod incoming;
pub mod pipeline;
pub mod rejection;
pub mod routes;
pub mod server;
pub mod tls_config;
pub mod tls_stream;
