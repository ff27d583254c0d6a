use vstd::prelude::*;
use crate::auto::LogError;
use crate::auto::Logger;
use crate::level::LogLevel;
use crate::sink::Sink;

verus! {

use vstd::string::StringExecFns;

/// Holds when the text contains no line break.
pub open spec fn newline_free(s: Seq<char>) -> bool {
    forall|i: int| 0 <= i < s.len() ==> s[i] != '\n'
}

/// Holds when the category, if present, contains no line break.
pub open spec fn opt_newline_free(category: Option<Seq<char>>) -> bool {
    match category {
        Some(c) => newline_free(c),
        None => true,
    }
}

/// The optional category rendered into a line: `None` adds nothing, a
/// present category is set off by a single space.
pub open spec fn category_field(category: Option<Seq<char>>) -> Seq<char> {
    match category {
        Some(c) => " "@ + c,
        None => Seq::<char>::empty(),
    }
}

/// The views of an optional category string.
pub open spec fn category_view(category: Option<&str>) -> Option<Seq<char>> {
    match category {
        Some(c) => Some(c@),
        None => None,
    }
}

/// One rendered log line: the timestamp, then the severity label and the
/// optional category between brackets, then the message, terminated by a
/// newline.
pub open spec fn rendered_line(
    timestamp: Seq<char>,
    level: LogLevel,
    category: Option<Seq<char>>,
    message: Seq<char>,
) -> Seq<char> {
    timestamp + " ["@ + level.spec_label() + category_field(category) + "]: "@ + message + "\n"@
}

/// Holds when `appended` is exactly one rendered line for the given fields,
/// stamped with some nonempty, newline-free timestamp.
pub open spec fn is_rendered_line(
    appended: Seq<char>,
    level: LogLevel,
    category: Option<Seq<char>>,
    message: Seq<char>,
) -> bool {
    exists|ts: Seq<char>|
        ts.len() > 0 && newline_free(ts) && appended == rendered_line(ts, level, category, message)
}

/// Renders one log line from its four fields.
pub fn format_line(
    timestamp: &str,
    level: LogLevel,
    category: Option<&str>,
    message: &str,
) -> (r: String)
    ensures
        r@ == rendered_line(timestamp@, level, category_view(category), message@),
{
    let mut line = timestamp.to_owned();
    line.append(" [");
    line.append(level.label());
    match category {
        Some(c) => {
            line.append(" ");
            line.append(c);
        },
        None => {},
    }
    line.append("]: ");
    line.append(message);
    line.append("\n");
    proof {
        assert(line@ =~= rendered_line(timestamp@, level, category_view(category), message@));
    }
    line
}

/// Relies on `std::time::SystemTime::now` and on chrono: the `From`
/// conversion to `DateTime<Local>` reads the clock without panicking on
/// times before the Unix epoch (only a clock outside chrono's representable
/// range of roughly ±262,000 years is not handled), and the `Display` of
/// `DateTime<Local>` renders date, time and offset from digits, separators
/// and spaces alone — never empty, never a line break. The value itself
/// depends on the clock, so nothing more is promised.
#[verifier::external_body]
fn local_timestamp() -> (r: String)
    ensures
        r@.len() > 0,
        newline_free(r@),
{
    chrono::DateTime::<chrono::Local>::from(std::time::SystemTime::now()).to_string()
}

/// [`Logger`] implementation that filters by a minimum severity and writes
/// every accepted message, formatted as a single line, to a given output
/// [`Sink`].
///
/// # Usage
///
/// ```rust
/// use mdlog::Logger;
/// use mdlog::LogLevel;
/// use mdlog::loggers::TextLogger;
/// use mdlog::sink::MemorySink;
///
/// let mut logger = TextLogger::new(LogLevel::Warning, MemorySink::new());
/// // These messages will not get written, because their log level is too low:
/// let _ = logger.log(LogLevel::Debug, "This is a debug message");
/// let _ = logger.log(LogLevel::Info, "This is an informational message");
/// // These will get written, because their log level is high enough:
/// let _ = logger.log(LogLevel::Warning, "Something suspicious happened");
/// let _ = logger.log(LogLevel::Error, "Oh, no! An error occurred!");
/// let _ = logger.log(LogLevel::Fatal, "NO! FATAL ERROR! Application is shut down!");
/// ```
pub struct TextLogger<S: Sink> {
    min_log_level: LogLevel,
    writer: S,
}

impl<S: Sink> TextLogger<S> {
    /// The minimum severity this logger accepts, fixed at construction.
    pub closed spec fn spec_min_log_level(&self) -> LogLevel {
        self.min_log_level
    }

    /// The characters this logger's sink has accepted so far.
    pub closed spec fn sink_contents(&self) -> Seq<char> {
        self.writer.contents()
    }

    /// Whether this logger's sink promises that writes never fail.
    pub closed spec fn sink_infallible(&self) -> bool {
        self.writer.infallible()
    }

    /// Creates a new [`TextLogger`] instance with given minimum log level
    /// and output sink. No write is performed at construction.
    pub fn new(min_log_level: LogLevel, writer: S) -> (r: TextLogger<S>)
        ensures
            r.spec_min_log_level() == min_log_level,
            r.sink_contents() == writer.contents(),
            r.sink_infallible() == writer.infallible(),
    {
        TextLogger { min_log_level, writer }
    }

    /// Returns the minimum log level of the [`TextLogger`] instance.
    pub fn min_log_level(&self) -> (r: LogLevel)
        ensures
            r == self.spec_min_log_level(),
    {
        self.min_log_level
    }

    /// Borrows the output sink, for inspection by the owner.
    pub fn writer(&self) -> (r: &S)
        ensures
            r.contents() == self.sink_contents(),
    {
        &self.writer
    }

    /// Like [`Logger::log`], with an explicit optional category naming the
    /// calling execution context; the category is rendered into the line.
    ///
    /// A message below the minimum severity is silently discarded and the
    /// call succeeds without touching the sink. Otherwise exactly one line —
    /// a timestamp captured at call time, the severity label, the category
    /// and the message — is handed to the sink, and the sink's outcome is
    /// returned verbatim; in particular, over a sink that cannot fail the
    /// call always succeeds.
    pub fn log_with_category(
        &mut self,
        log_level: LogLevel,
        category: Option<&str>,
        message: &str,
    ) -> (r: Result<(), LogError>)
        ensures
            final(self).spec_min_log_level() == old(self).spec_min_log_level(),
            old(self).sink_infallible() ==> r is Ok && final(self).sink_infallible(),
            log_level.rank() < old(self).spec_min_log_level().rank() ==> r is Ok
                && final(self).sink_contents() == old(self).sink_contents(),
            log_level.rank() >= old(self).spec_min_log_level().rank() && r is Ok
                ==> final(self).sink_contents() == old(self).sink_contents()
                    + final(self).sink_contents().skip(old(self).sink_contents().len() as int)
                && is_rendered_line(
                    final(self).sink_contents().skip(old(self).sink_contents().len() as int),
                    log_level,
                    category_view(category),
                    message@,
                ),
    {
        // Do not do anything if log level is too low:
        if log_level < self.min_log_level {
            return Ok(());
        }
        // Capture the timestamp and render the line:
        let timestamp = local_timestamp();
        let line = format_line(timestamp.as_str(), log_level, category, message);
        // Write to the sink:
        let outcome = self.writer.write_line(line.as_str());
        proof {
            if outcome is Ok {
                assert(self.sink_contents().skip(old(self).sink_contents().len() as int)
                    =~= line@);
            }
        }
        outcome
    }
}

impl<S: Sink> Logger for TextLogger<S> {
    /// The meaning of one attempt: the threshold is kept; a sink that cannot
    /// fail yields success and stays that way; below the threshold the call
    /// succeeds with the sink untouched; at or above it, success means the
    /// sink's contents grew by exactly one rendered line carrying this
    /// severity and message and an empty category.
    open spec fn log_spec(
        pre: &Self,
        post: &Self,
        log_level: LogLevel,
        message: Seq<char>,
        ok: bool,
    ) -> bool {
        &&& post.spec_min_log_level() == pre.spec_min_log_level()
        &&& (pre.sink_infallible() ==> ok && post.sink_infallible())
        &&& (log_level.rank() < pre.spec_min_log_level().rank() ==> ok && post.sink_contents()
            == pre.sink_contents())
        &&& (log_level.rank() >= pre.spec_min_log_level().rank() && ok ==> post.sink_contents()
            == pre.sink_contents() + post.sink_contents().skip(pre.sink_contents().len() as int)
            && is_rendered_line(
            post.sink_contents().skip(pre.sink_contents().len() as int),
            log_level,
            None,
            message,
        ))
    }

    /// Filters by the minimum severity, then writes one formatted line.
    ///
    /// The category field is left empty here: no ambient execution-context
    /// name is consulted. A caller that knows the name of its execution
    /// context passes it through [`TextLogger::log_with_category`].
    fn log(&mut self, log_level: LogLevel, message: &str) -> (r: Result<(), LogError>) {
        self.log_with_category(log_level, None, message)
    }
}

/// Shape of a rendered line: it ends with a line terminator, the severity
/// label stands verbatim right after the opening bracket, and the message
/// stands verbatim right before the final newline.
pub proof fn lemma_rendered_line_shape(
    timestamp: Seq<char>,
    level: LogLevel,
    category: Option<Seq<char>>,
    message: Seq<char>,
)
    ensures
        rendered_line(timestamp, level, category, message).len() >= 1,
        rendered_line(timestamp, level, category, message).last() == '\n',
        rendered_line(timestamp, level, category, message).subrange(
            timestamp.len() as int + 2,
            timestamp.len() as int + 2 + level.spec_label().len(),
        ) == level.spec_label(),
        rendered_line(timestamp, level, category, message).subrange(
            rendered_line(timestamp, level, category, message).len() as int - 1 - message.len(),
            rendered_line(timestamp, level, category, message).len() as int - 1,
        ) == message,
{
    reveal_strlit(" [");
    reveal_strlit("]: ");
    reveal_strlit("\n");
    reveal_strlit(" ");
    let line = rendered_line(timestamp, level, category, message);
    assert(line.subrange(
        timestamp.len() as int + 2,
        timestamp.len() as int + 2 + level.spec_label().len(),
    ) =~= level.spec_label());
    assert(line.subrange(line.len() as int - 1 - message.len(), line.len() as int - 1)
        =~= message);
}

/// One line per accepted message: when the timestamp, the category and the
/// message contain no line break, the final newline is the only one in the
/// rendered line.
pub proof fn lemma_rendered_line_single_terminator(
    timestamp: Seq<char>,
    level: LogLevel,
    category: Option<Seq<char>>,
    message: Seq<char>,
)
    requires
        newline_free(timestamp),
        opt_newline_free(category),
        newline_free(message),
    ensures
        rendered_line(timestamp, level, category, message).last() == '\n',
        forall|i: int|
            0 <= i < rendered_line(timestamp, level, category, message).len() - 1
                ==> rendered_line(timestamp, level, category, message)[i] != '\n',
{
    reveal_strlit(" [");
    reveal_strlit("]: ");
    reveal_strlit("\n");
    reveal_strlit(" ");
    reveal_strlit("DEBUG");
    reveal_strlit("INFO");
    reveal_strlit("WARN");
    reveal_strlit("ERROR");
    reveal_strlit("FATAL");
    assert(newline_free(level.spec_label()));
    assert(newline_free(category_field(category)));
    let line = rendered_line(timestamp, level, category, message);
    assert forall|i: int| 0 <= i < line.len() - 1 implies line[i] != '\n' by {
        assert(line[i] != '\n');
    }
}

} // verus!
