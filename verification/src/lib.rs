//! An authenticated JSON-over-HTTP client, split into the decisions it makes
//! and the transport that carries them out.
//!
//! The client prepares each request as a plain [`Request`] value and
//! classifies each [`Response`] that the transport hands back. Every decision
//! has a contract; the transport itself lives outside this crate.

pub mod client;
pub mod endpoint;
pub mod error;
pub mod header;
pub mod request;
pub mod response;

pub use client::AsyncClient;
pub use error::{ClientError, ErrorWrapper};
pub use header::HeaderName;
pub use request::{Method, Request, Response};
