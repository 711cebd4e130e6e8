//! Web-facing decisions: error answers, role checks, request context and tracing.

pub mod error;
pub mod extractor;
pub mod middleware;
pub mod ctx;
