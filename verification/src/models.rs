//! The record kinds that the service stores.

pub mod project;
