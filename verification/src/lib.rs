//! Per-query instrumentation for a database client: a scoped timer bound to
//! a borrowed query string and a row counter, emitting one summarized log
//! line when the query completes or is abandoned.
//!
//! The instrument lives in [`logger`]; [`summary`] holds the token-based
//! query preview, [`render`] the verified number and elapsed-time rendering,
//! [`message`] the composed log line, and [`levels`] the severity model and
//! the boundary to the logging backend.

pub mod levels;
pub mod logger;
pub mod message;
pub mod render;
pub mod summary;
