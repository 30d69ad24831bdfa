//! Verified core of a client for a remote memory and reasoning service.
//!
//! The library holds the decisions of the client: the names that go on the
//! wire, how a request URL and its headers are formed, how an answer is turned
//! into a result, and a registry of named client instances.
pub mod calls;
pub mod error;
pub mod json;
pub mod kinds;
pub mod registry;
pub mod request;
pub mod vectors;
