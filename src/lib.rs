//! Structured, multi-destination delivery of log events.
//!
//! A log event becomes an [`ExtendedLogRecord`], which the [`ExtendedLogger`] hands to each
//! registered handler in registration order. A handler checks the record against its level
//! threshold and its filter chain, then renders it with its formatter; what it renders is
//! returned to the caller, which owns the actual byte sinks.
pub mod level;
pub mod text;
pub mod record;
pub mod formatter;
pub mod handlers;
pub mod logger;

pub use level::{Level, LevelFilter};
pub use logger::ExtendedLogger;
pub use record::ExtendedLogRecord;
