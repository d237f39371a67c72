//! Client library for the stability.ai image-generation REST API.
//!
//! The verified core covers what decides the outcome of a call: the text of
//! every error, the wire names of the request enums, the multipart fields of
//! the file-upload endpoints, the classification of a response, the retry
//! decisions taken after each attempt, and what is written to disk for each
//! generated image. Sending requests, reading and writing files and sleeping
//! between attempts are left to the caller, which acts on those decisions.
pub mod artifacts;
pub mod bindings;
pub mod client;
pub mod error;
pub mod multipart;
pub mod policy;
pub mod retry;
pub mod types;
pub mod wire;

pub use client::{Client, API_BASE, CLIENT_ID_HEADER, CLIENT_VERSION_HEADER, ORGANIZATION_HEADER};
pub use error::{ApiError, StabilityAIError};
