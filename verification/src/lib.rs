//! Request and response rules of a small REST service that keeps projects and
//! users in a document store.
//!
//! The crate holds everything the service decides: which store operation each
//! endpoint issues, which HTTP status and body each store outcome is answered
//! with, and how a store failure is classified. It performs no I/O itself; the
//! program around it talks to the network and to the store and hands this
//! library plain values.

pub mod handlers;
pub mod http;
pub mod models;
pub mod store;
pub mod utils;
