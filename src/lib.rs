//! Builder for binary event-log records.
//!
//! A record is a tag followed by an ordered stream of typed values (32- and
//! 64-bit integers, 32-bit floats, text) that may be grouped into nested
//! lists. The backend that encodes and transmits records is reached through
//! foreign calls that this library does not make itself: the caller performs
//! each backend call and hands its status to the matching step here, which
//! decides whether the record goes on, and keeps the model of what the
//! backend has accepted so far.

pub mod context;
pub mod laws;


pub use context::{
    check_liblog_result, security_log_enabled, Item, LogContext, LogContextError, LogContextView,
    Value, LOG_ID_SECURITY,
};
