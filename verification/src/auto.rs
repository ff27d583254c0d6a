use vstd::prelude::*;
use crate::level::LogLevel;

verus! {

/// The failure outcome of a logging attempt: an I/O-style error description
/// originating from an output sink.
///
/// Construction never fails anywhere in this crate, and severity filtering is
/// not an error path, so a sink write failure is the only error source.
#[derive(Debug)]
pub struct LogError {
    /// A human-readable description of what went wrong.
    pub description: String,
}

impl LogError {
    /// Creates a new [`LogError`] carrying the given description.
    pub fn new(description: String) -> (r: LogError)
        ensures
            r.description@ == description@,
    {
        LogError { description }
    }
}

/// Trait for implementing a logging utility.
///
/// This trait has only one method, that is [`log`]. This method is called
/// whenever some operation, that may be important, happens.
///
/// Note that the [`Logger`] trait does not specify how a given message is
/// logged nor where it should be logged to: each implementation defines its
/// own filtering, formatting, and failure semantics.
///
/// [`log`]: Logger::log
pub trait Logger: Send + Sync {
    /// What one logging attempt by this implementation means: it relates the
    /// logger before the attempt, the logger after it, the severity and
    /// message handed in, and whether the attempt succeeded. Each
    /// implementation gives its own meaning by overriding this; the default
    /// promises nothing, which is what an implementation outside this crate
    /// is held to.
    open spec fn log_spec(
        pre: &Self,
        post: &Self,
        log_level: LogLevel,
        message: Seq<char>,
        ok: bool,
    ) -> bool {
        true
    }

    /// Method for logging a message.
    ///
    /// # Parameters
    ///
    ///  -  `log_level`: [`LogLevel`] of given message
    ///  -  `message`: message text to be logged
    ///
    /// # Return value
    ///
    /// A [`Result`] indicating whether the message was successfully logged.
    fn log(&mut self, log_level: LogLevel, message: &str) -> (r: Result<(), LogError>)
        ensures
            Self::log_spec(old(self), final(self), log_level, message@, r is Ok),
    ;
}

} // verus!
