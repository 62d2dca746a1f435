//! The inbound report, the relay's configuration, and the outbound
//! notification payload.

use vstd::prelude::*;

verus! {

/// A backup tool's completion report, as the relay reads it from the
/// inbound request body.
#[derive(Debug)]
pub struct InboundReport {
    pub deleted_files: u64,
    pub added_files: u64,
    pub examined_files: u64,
    pub size_of_added_files: u64,
    pub main_operation: String,
    pub parsed_result: String,
    pub duration: String,
    pub operation_name: String,
    pub machine_name: String,
    pub backup_name: String,
}

/// The relay's configuration, loaded once at startup. `None` means the
/// option is unset and its built-in default applies.
#[derive(Debug)]
pub struct Config {
    /// Full replacement title for a successful backup.
    pub success_message: Option<String>,
    /// Full replacement title for a backup that ended with warnings.
    pub warning_message: Option<String>,
    /// Full replacement title for a failed backup.
    pub error_message: Option<String>,
    /// Ordered, comma-separated list of field keys for the message body.
    pub message_items: Option<String>,
    /// Priority for the outbound notification, as a decimal string.
    pub priority: Option<String>,
    /// Whether verbose diagnostic logging is on ("true", in any case).
    pub debug_mode: Option<String>,
}

/// The payload the relay sends to the push-notification service.
#[derive(Debug)]
pub struct GotifyPayload {
    pub title: String,
    pub message: String,
    pub priority: i32,
}

/// Why formatting an inbound report failed.
#[derive(Clone, Copy, PartialEq, Eq, Structural, Debug)]
pub enum FormatError {
    /// The report's result field is none of the recognized values.
    UnrecognizedResult,
}

/// Why delivering a notification failed.
#[derive(Clone, Copy, PartialEq, Eq, Structural, Debug)]
pub enum DeliveryError {
    /// The push service answered with a status outside the success class.
    HttpStatus(u16),
    /// The request to the push service did not complete.
    NetworkError,
}

} // verus!
