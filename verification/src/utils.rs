//! Helpers shared by the request handlers.

pub mod mongo_errors;
