//! A tiny HTTP endpoint for scrape-based metrics collection.
//!
//! The crate keeps one mutable byte buffer, the latest metrics snapshot,
//! behind a verified reader-writer lock. A producer replaces the whole
//! payload with [`MetricsServer::update`]; any number of request handlers
//! read it with [`MetricsServer::snapshot`] or answer a full request with
//! [`MetricsServer::handle_request`]. Request validation (method and path)
//! and response construction are verified; the listener socket and the
//! accept loop are ordinary I/O and live outside this crate.

pub mod buffer;
pub mod request;
pub mod server;

pub use crate::buffer::Buffer;
pub use crate::request::{HttpResponse, Method};
pub use crate::server::MetricsServer;
