//! A notification relay library: it turns a backup tool's completion report
//! into a push-notification payload (title, message, priority), and decides
//! the HTTP reply for each inbound request.
//!
//! The formatting and decision logic lives here, fully verified; the
//! surrounding HTTP server and client are ordinary Rust outside this crate.

pub mod format;
pub mod model;
pub mod numfmt;
pub mod relay;
pub mod split;
