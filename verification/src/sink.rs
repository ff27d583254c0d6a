use vstd::prelude::*;
use crate::auto::LogError;

verus! {

use vstd::string::StringExecFns;

/// A write-only text destination, as a [`crate::loggers::TextLogger`] sees
/// it: it accepts one line of text at a time and may fail with an I/O-style
/// error.
///
/// The abstract state of a sink is the sequence of characters written to it
/// so far, given by [`Sink::contents`]. A successful write appends exactly
/// the line that was handed in; nothing is promised about the state after a
/// failed write, since a real destination may have accepted part of the
/// line before failing.
pub trait Sink: Send + Sync {
    /// The characters this sink has accepted so far. An implementation that
    /// wants its output reasoned about overrides this with its own model;
    /// the default is an arbitrary value, so an implementation that keeps it
    /// can never prove what a successful write left behind.
    open spec fn contents(&self) -> Seq<char> {
        arbitrary()
    }

    /// Whether writes to this sink can ever fail. An implementation that
    /// overrides this with `true` promises that every write succeeds; the
    /// default promises nothing.
    open spec fn infallible(&self) -> bool {
        false
    }

    /// Attempts to write `line` to the destination.
    fn write_line(&mut self, line: &str) -> (r: Result<(), LogError>)
        ensures
            r is Ok ==> final(self).contents() == old(self).contents() + line@,
            old(self).infallible() ==> r is Ok && final(self).infallible(),
    ;
}

/// A [`Sink`] that appends every line to an in-memory string and never
/// fails. Useful wherever the rendered output itself is of interest.
pub struct MemorySink {
    data: String,
}

impl MemorySink {
    /// Creates an empty [`MemorySink`].
    pub fn new() -> (r: MemorySink)
        ensures
            r.contents() == Seq::<char>::empty(),
    {
        MemorySink { data: String::new() }
    }

    /// Everything written to this sink so far, as text.
    pub fn as_str(&self) -> (r: &str)
        ensures
            r@ == self.contents(),
    {
        self.data.as_str()
    }
}

impl Sink for MemorySink {
    closed spec fn contents(&self) -> Seq<char> {
        self.data@
    }

    open spec fn infallible(&self) -> bool {
        true
    }

    fn write_line(&mut self, line: &str) -> (r: Result<(), LogError>)
        ensures
            r is Ok,
    {
        self.data.append(line);
        Ok(())
    }
}

} // verus!
