//! Decision logic for talking to an object store: a multipart upload
//! orchestrator and lazy cursors over paged object listings.
//!
//! Nothing in this crate performs I/O. Every component is a state machine:
//! it is told what the store answered and replies with the next call to make.
//! The caller performs the calls.

pub mod content;
pub mod content_laws;
pub mod content_model;
pub mod error;
pub mod listing;
pub mod listing_laws;
pub mod listing_model;
pub mod request;
pub mod upload;
pub mod upload_laws;
pub mod upload_model;
