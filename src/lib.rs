//! Request authentication and rate limiting for an HTTP edge layer.
//!
//! The library holds the decisions: which client may pass, which signing keys
//! are fresh, which token is accepted and which headers a response carries.
//! The program around it performs the network and clock work and hands the
//! results in as plain values.

pub mod auth;
pub mod config;
pub mod error;
pub mod items;
pub mod jwt;
pub mod keyset;
pub mod models;
pub mod pipeline;
pub mod rate_limit;
pub mod security;
pub mod text;
pub mod version;
