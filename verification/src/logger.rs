//! The per-query instrument: a scoped timer bound to a borrowed query string
//! and a row counter, emitting one summarized log line when the query
//! completes or is abandoned.
//!
//! The instrument finishes at most once. Callers may finish it explicitly;
//! otherwise the drop guard finishes it when the owning scope exits, along
//! every exit path, with whatever row count had accumulated by then.

use vstd::prelude::*;
use std::time::Instant;
use crate::levels::Severity;
use crate::levels::dynamic_max_ceiling;
use crate::levels::emit_record;
use crate::levels::permits;
use crate::levels::severity_for_nanos;
use crate::levels::static_max_ceiling;
use crate::message::build_message;

verus! {

/// `std::time::Instant`, declared so that a captured start time may live in a
/// field; this crate never looks inside it, it only hands it back to `std`.
#[verifier::external_type_specification]
#[verifier::external_body]
pub struct ExInstant(Instant);

/// Relies on `std::time::Instant::now`: captures the current moment. What
/// moment that is depends on the clock, so nothing is promised of it.
#[verifier::external_body]
fn instant_now() -> Instant {
    Instant::now()
}

/// Relies on `std::time::Instant::elapsed` (and `Duration::as_nanos` to read
/// the result): the time since `start`, in whole nanoseconds, truncated to 64
/// bits (which span centuries). The value depends on the clock, so nothing is
/// promised of it.
#[verifier::external_body]
fn elapsed_nanos(start: &Instant) -> u64 {
    start.elapsed().as_nanos() as u64
}

/// Observes one query's execution: the query text it was created on, the
/// number of rows seen so far, the moment it was created, and whether its
/// one log emission has already happened.
pub struct QueryLogger<'q> {
    sql: &'q str,
    rows: usize,
    start: Instant,
    finished: bool,
    emissions: Ghost<nat>,
}

impl<'q> QueryLogger<'q> {
    /// The observed query text.
    pub closed spec fn sql_chars(&self) -> Seq<char> {
        self.sql@
    }

    /// How many rows have been counted so far.
    pub closed spec fn row_count(&self) -> nat {
        self.rows as nat
    }

    /// Whether the one allowed finish has already run.
    pub closed spec fn is_finished(&self) -> bool {
        self.finished
    }

    /// The moment captured at construction. Opaque, but contracts state that
    /// it is never replaced once captured.
    pub closed spec fn start_moment(&self) -> Instant {
        self.start
    }

    /// How many records this instrument has handed to the backend.
    pub closed spec fn emission_count(&self) -> nat {
        self.emissions@
    }

    /// The instrument's invariant: it emits at most one record in its whole
    /// life, and none before it finishes. Established by [`QueryLogger::new`]
    /// and preserved by every method.
    pub open spec fn wf(&self) -> bool {
        &&& self.emission_count() <= 1
        &&& (!self.is_finished() ==> self.emission_count() == 0)
    }

    /// Starts observing a query: captures the current moment as the start
    /// time and begins counting rows at zero. Emits nothing.
    pub fn new(sql: &'q str) -> (r: Self)
        ensures
            r.sql_chars() == sql@,
            r.row_count() == 0,
            !r.is_finished(),
            r.emission_count() == 0,
            r.wf(),
    {
        QueryLogger {
            sql,
            rows: 0,
            start: instant_now(),
            finished: false,
            emissions: Ghost(0),
        }
    }

    /// Counts one more row. The count only ever grows, and nothing else of
    /// the instrument changes: no emission, no new start moment.
    pub fn increment_rows(&mut self)
        requires
            old(self).row_count() < usize::MAX,
        ensures
            final(self).row_count() == old(self).row_count() + 1,
            final(self).sql_chars() == old(self).sql_chars(),
            final(self).start_moment() == old(self).start_moment(),
            final(self).is_finished() == old(self).is_finished(),
            final(self).emission_count() == old(self).emission_count(),
    {
        self.rows = self.rows + 1;
    }

    /// Finishes the instrument: on its first call, reads the elapsed time,
    /// selects the severity, and — only if both level ceilings admit it —
    /// builds the message of [`build_message`] and emits it with that
    /// severity. Any later call finds the instrument finished and changes
    /// nothing; under [`QueryLogger::wf`] the instrument therefore emits at
    /// most one record, ever.
    pub fn finish(&mut self)
        ensures
            final(self).is_finished(),
            final(self).row_count() == old(self).row_count(),
            final(self).sql_chars() == old(self).sql_chars(),
            final(self).start_moment() == old(self).start_moment(),
            old(self).is_finished() ==> *final(self) == *old(self),
            final(self).emission_count() <= old(self).emission_count() + 1,
            old(self).is_finished() ==> final(self).emission_count() == old(
                self,
            ).emission_count(),
            old(self).wf() ==> final(self).wf(),
    {
        if self.finished {
            return ;
        }
        self.finished = true;
        let ns = elapsed_nanos(&self.start);
        let sev: Severity = severity_for_nanos(ns);
        if permits(static_max_ceiling(), sev) && permits(dynamic_max_ceiling(), sev) {
            let msg = build_message(self.sql, self.rows, ns);
            emit_record(sev, msg.as_str());
            self.emissions = Ghost(self.emissions@ + 1);
        }
    }
}

impl<'q> Drop for QueryLogger<'q> {
    /// Finishes the instrument when its owning scope exits, along every exit
    /// path. `Drop` implementations must be proved free of unwinding, which
    /// the string building inside `finish` cannot offer, so this one call is
    /// made outside the verifier's view; it only invokes [`QueryLogger::finish`],
    /// whose contract is verified and which detects a prior finish.
    #[verifier::external_body]
    fn drop(&mut self)
        opens_invariants none
        no_unwind
    {
        self.finish();
    }
}

} // verus!
