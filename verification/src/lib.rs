//! One-shot upload to a hierarchical-namespace file store.
//!
//! An upload is two requests in a fixed order: create the file resource, then
//! write its whole content. This crate holds the rules of that exchange and
//! performs no I/O itself: a driver sends the requests and reports what came
//! back, and the functions here decide what is due next.

pub mod buffer;
pub mod error;
pub mod exchange;
pub mod protocol;
pub mod request;
pub mod status;
pub mod writer;
