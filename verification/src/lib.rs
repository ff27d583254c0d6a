//! A simple crate for logging.
//!
//! All loggers implement the [`Logger`] trait: they accept a severity and a
//! message, attempt to record the pair, and report success or failure.
//!
//! Two concrete loggers are featured. [`loggers::TextLogger`] filters by a
//! minimum [`LogLevel`] and writes each accepted message, formatted as a
//! single line, to an output [`sink::Sink`]. [`loggers::CompositeLogger`]
//! owns an ordered sequence of other loggers and forwards every message to
//! each of them in insertion order, stopping at the first failure.

pub mod auto;
pub mod level;
pub mod loggers;
pub mod sink;

pub use crate::auto::LogError;
pub use crate::auto::Logger;
pub use crate::level::LogLevel;
