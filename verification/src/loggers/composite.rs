use vstd::prelude::*;
use crate::auto::LogError;
use crate::auto::Logger;
use crate::level::LogLevel;

verus! {

/// Represents a [`Logger`] that consists of many [`Logger`]s.
///
/// The members form an ordered sequence that only grows: one logger at a
/// time through [`CompositeLogger::add`], or a whole other composite's
/// members through [`CompositeLogger::append`]. Every message is forwarded
/// to the members in insertion order, stopping at the first failure. All
/// members of one composite share the member type `L`.
///
/// The abstract state of a composite is that sequence of members, given by
/// its view. The underlying [`Vec`] itself can be borrowed for direct
/// inspection or mutation through [`CompositeLogger::loggers`] and
/// [`CompositeLogger::loggers_mut`].
pub struct CompositeLogger<L: Logger> {
    loggers: Vec<L>,
}

/// Holds when one fan-out attempt over `pre` stopped at the cut index `i`
/// and left `post` behind: every member before the cut satisfies its own
/// meaning of a successful attempt with this severity and message, the
/// member at the cut — when there is one — satisfies its meaning of a
/// failed attempt, and every member past the cut is exactly unchanged.
pub open spec fn fanout_cut<L: Logger>(
    pre: Seq<L>,
    post: Seq<L>,
    log_level: LogLevel,
    message: Seq<char>,
    i: int,
) -> bool {
    &&& 0 <= i <= pre.len()
    &&& post.len() == pre.len()
    &&& forall|j: int| 0 <= j < i ==> L::log_spec(&pre[j], &post[j], log_level, message, true)
    &&& (i < pre.len() ==> L::log_spec(&pre[i], &post[i], log_level, message, false))
    &&& forall|j: int| i < j < pre.len() ==> post[j] == pre[j]
}

impl<L: Logger> View for CompositeLogger<L> {
    type V = Seq<L>;

    closed spec fn view(&self) -> Seq<L> {
        self.loggers@
    }
}

impl<L: Logger> CompositeLogger<L> {
    /// Creates a new, empty [`CompositeLogger`] instance.
    pub fn new() -> (r: CompositeLogger<L>)
        ensures
            r@ == Seq::<L>::empty(),
    {
        CompositeLogger { loggers: Vec::new() }
    }

    /// Creates a new, empty [`CompositeLogger`] with given capacity of the
    /// underlying [`Vec`]. The capacity is a performance hint only: the
    /// result is observably identical to [`CompositeLogger::new`].
    pub fn with_capacity(capacity: usize) -> (r: CompositeLogger<L>)
        ensures
            r@ == Seq::<L>::empty(),
    {
        CompositeLogger { loggers: Vec::with_capacity(capacity) }
    }

    /// Appends one logger to the end of the member sequence; the composite
    /// becomes the exclusive owner of that logger.
    pub fn add(&mut self, logger: L)
        ensures
            final(self)@ == old(self)@.push(logger),
    {
        self.loggers.push(logger)
    }

    /// Merges `self` with another instance of [`CompositeLogger`]: every
    /// member of `other` moves, in order, onto the end of `self`'s sequence.
    pub fn append(&mut self, other: Self)
        ensures
            final(self)@ == old(self)@ + other@,
    {
        let mut other = other;
        self.loggers.append(&mut other.loggers);
    }

    /// Borrows the member sequence for direct inspection.
    pub fn loggers(&self) -> (r: &Vec<L>)
        ensures
            r@ == self@,
    {
        &self.loggers
    }

    /// Borrows the member sequence for direct mutation.
    pub fn loggers_mut(&mut self) -> (r: &mut Vec<L>)
        ensures
            r@ == old(self)@,
            final(self)@ == final(r)@,
    {
        &mut self.loggers
    }
}

impl<L: Logger> Logger for CompositeLogger<L> {
    /// The meaning of one attempt: some cut index splits the members into
    /// those that were asked and succeeded, at most one that was asked and
    /// failed, and those never asked and left untouched — and the attempt
    /// succeeded exactly when the cut reached past the last member. An empty
    /// composite therefore always succeeds.
    open spec fn log_spec(
        pre: &Self,
        post: &Self,
        log_level: LogLevel,
        message: Seq<char>,
        ok: bool,
    ) -> bool {
        exists|i: int|
            #[trigger] fanout_cut(pre@, post@, log_level, message, i) && (ok <==> i == pre@.len())
    }

    /// Forwards the message to every member in insertion order, with the
    /// same severity and message, stopping at the first member that reports
    /// failure and returning that failure verbatim; members after the
    /// failing one are not invoked. If every member succeeds — in
    /// particular, if there are no members — the call succeeds.
    fn log(&mut self, log_level: LogLevel, message: &str) -> (r: Result<(), LogError>)
        ensures
            final(self)@.len() == old(self)@.len(),
            old(self)@.len() == 0 ==> r is Ok && final(self)@ == old(self)@,
    {
        let n = self.loggers.len();
        let mut i: usize = 0;
        while i < n
            invariant
                i <= n,
                n == self.loggers@.len(),
                n == old(self)@.len(),
                n == 0 ==> self@ == old(self)@,
                forall|j: int|
                    0 <= j < i ==> L::log_spec(
                        &old(self)@[j],
                        &self.loggers@[j],
                        log_level,
                        message@,
                        true,
                    ),
                forall|j: int| i <= j < n ==> self.loggers@[j] == old(self)@[j],
            decreases n - i,
        {
            let member = &mut self.loggers[i];
            let outcome = member.log(log_level, message);
            match outcome {
                Ok(_) => {},
                Err(e) => {
                    proof {
                        assert(fanout_cut(old(self)@, self@, log_level, message@, i as int));
                    }
                    return Err(e);
                },
            }
            i = i + 1;
        }
        proof {
            assert(fanout_cut(old(self)@, self@, log_level, message@, n as int));
            if n == 0 {
                assert(self@ =~= old(self)@);
            }
        }
        Ok(())
    }
}

/// Capacity round trip: a composite built through
/// [`CompositeLogger::with_capacity`] and one built through
/// [`CompositeLogger::new`] start in the same abstract state — the empty
/// member sequence — and after equal members are added in the same order
/// their abstract states are still equal. Every contract of this module
/// speaks only of the member sequence, so the capacity hint is not
/// observable.
pub proof fn lemma_capacity_hint_unobservable<L: Logger>(
    with_hint: CompositeLogger<L>,
    without_hint: CompositeLogger<L>,
    members: Seq<L>,
)
    requires
        with_hint@ == Seq::<L>::empty() + members,
        without_hint@ == Seq::<L>::empty() + members,
    ensures
        with_hint@ == without_hint@,
{
}

} // verus!
