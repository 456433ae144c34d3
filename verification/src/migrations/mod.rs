//! Schema migrations: which statements they run, and what happens when one fails.

use vstd::prelude::*;

pub mod m20260417_000004_add_secondary_upload_fields;
pub mod m20260512_000005_add_file_search_count;

verus! {

/// The kinds of database.
#[derive(Debug, Clone, Copy, PartialEq, Eq, Structural)]
pub enum DatabaseBackend {
    MySql,
    Postgres,
    Sqlite,
}

/// What the failure or success of a statement comes to.
#[derive(Debug, Clone, Copy, PartialEq, Eq, Structural)]
pub enum Verdict {
    /// The statement succeeded; the run goes on.
    Succeeded,
    /// The statement failed, which does not matter; the run goes on.
    Ignored,
    /// The statement failed; the run ends with its error.
    Failed,
}

/// A run of statements, one after the other.
#[derive(Debug)]
pub struct MigrationRun {
    pub statements: Vec<&'static str>,
    /// The place of the statement that comes next.
    pub next: usize,
    /// A failure of a statement is passed over.
    pub tolerant: bool,
    /// A statement failed, and that was not passed over.
    pub failed: bool,
}

/// The views of a list of statements.
pub open spec fn statement_texts(statements: Seq<&'static str>) -> Seq<Seq<char>> {
    Seq::new(statements.len(), |i: int| statements[i]@)
}

impl MigrationRun {
    /// A run that has not got past its statements.
    pub open spec fn well_formed(self) -> bool {
        self.next <= statement_texts(self.statements@).len()
    }

    /// No statement is left to run.
    pub open spec fn is_over(self) -> bool {
        self.failed || self.next == statement_texts(self.statements@).len()
    }

    /// A run of these statements, at its beginning.
    pub open spec fn is_start(self, statements: Seq<Seq<char>>, tolerant: bool) -> bool {
        &&& self.well_formed()
        &&& statement_texts(self.statements@) == statements
        &&& self.next == 0
        &&& self.tolerant == tolerant
        &&& !self.failed
    }

    /// The statement that is to be run now.
    pub fn statement(&self) -> (r: Option<&'static str>)
        requires
            self.well_formed(),
        ensures
            match r {
                Some(sql) => !self.is_over() && sql@ == statement_texts(
                    self.statements@,
                )[self.next as int],
                None => self.is_over(),
            },
    {
        if !self.failed && self.next < self.statements.len() {
            Some(self.statements[self.next])
        } else {
            None
        }
    }

    /// Takes note of how the statement went that was to be run, and says what that comes to.
    pub fn record(&mut self, succeeded: bool) -> (r: Verdict)
        requires
            old(self).well_formed(),
            !old(self).is_over(),
        ensures
            final(self).well_formed(),
            run_view(*final(self)) == run_after(run_view(*old(self)), succeeded),
            r == verdict_of(old(self).tolerant, succeeded),
    {
        let count: usize = self.statements.len();
        assert(self.next < count);
        if succeeded {
            self.next = self.next + 1;
            Verdict::Succeeded
        } else if self.tolerant {
            self.next = self.next + 1;
            Verdict::Ignored
        } else {
            self.failed = true;
            Verdict::Failed
        }
    }
}

/// Where a run stands.
pub struct RunView {
    pub statements: Seq<Seq<char>>,
    pub next: nat,
    pub tolerant: bool,
    pub failed: bool,
}

pub open spec fn run_view(run: MigrationRun) -> RunView {
    RunView {
        statements: statement_texts(run.statements@),
        next: run.next as nat,
        tolerant: run.tolerant,
        failed: run.failed,
    }
}

/// What the failure or success of a statement comes to.
pub open spec fn verdict_of(tolerant: bool, succeeded: bool) -> Verdict {
    if succeeded {
        Verdict::Succeeded
    } else if tolerant {
        Verdict::Ignored
    } else {
        Verdict::Failed
    }
}

/// Where a run stands after its next statement went this way.
pub open spec fn run_after(run: RunView, succeeded: bool) -> RunView {
    match verdict_of(run.tolerant, succeeded) {
        Verdict::Failed => RunView { failed: true, ..run },
        _ => RunView { next: run.next + 1, ..run },
    }
}

/// Where a run stands in the end, where `succeeds` tells of each statement whether it would.
pub open spec fn run_to_end(run: RunView, succeeds: spec_fn(Seq<char>) -> bool) -> RunView
    decreases run.statements.len() - run.next,
{
    if run.failed || run.next >= run.statements.len() {
        run
    } else {
        let after = run_after(run, succeeds(run.statements[run.next as int]));
        if after.failed {
            after
        } else {
            run_to_end(after, succeeds)
        }
    }
}

/// A tolerant run gets to its end, whatever fails on the way.
pub proof fn law_tolerant_run_does_all(run: RunView, succeeds: spec_fn(Seq<char>) -> bool)
    requires
        run.tolerant,
        !run.failed,
        run.next <= run.statements.len(),
    ensures
        !run_to_end(run, succeeds).failed,
        run_to_end(run, succeeds).next == run.statements.len(),
    decreases run.statements.len() - run.next,
{
    if run.next < run.statements.len() {
        let after = run_after(run, succeeds(run.statements[run.next as int]));
        law_tolerant_run_does_all(after, succeeds);
    }
}

/// A run that is not tolerant stops at the first statement that fails, with all before it done;
/// where none fails it gets to its end.
pub proof fn law_strict_run_stops_at_first_failure(
    run: RunView,
    succeeds: spec_fn(Seq<char>) -> bool,
)
    requires
        !run.tolerant,
        !run.failed,
        run.next <= run.statements.len(),
    ensures
        ({
            let end = run_to_end(run, succeeds);
            &&& run.next <= end.next <= run.statements.len()
            &&& forall|i: int|
                run.next <= i < end.next ==> succeeds(#[trigger] run.statements[i])
            &&& end.failed <==> end.next < run.statements.len()
            &&& end.failed ==> !succeeds(run.statements[end.next as int])
        }),
    decreases run.statements.len() - run.next,
{
    if run.next < run.statements.len() {
        if succeeds(run.statements[run.next as int]) {
            law_strict_run_stops_at_first_failure(run_after(run, true), succeeds);
        }
    }
}

/// A run of one statement or more, none of which may fail.
pub(crate) fn strict_run(statements: Vec<&'static str>) -> (r: MigrationRun)
    ensures
        r.is_start(statement_texts(statements@), false),
{
    MigrationRun { statements, next: 0, tolerant: false, failed: false }
}

/// A run of statements that drop columns. An old SQLite cannot drop columns, so failures are
/// passed over there; on any other database they are real.
pub(crate) fn drop_run(statements: Vec<&'static str>, backend: DatabaseBackend) -> (r: MigrationRun)
    ensures
        r.is_start(statement_texts(statements@), backend == DatabaseBackend::Sqlite),
{
    MigrationRun { statements, next: 0, tolerant: backend == DatabaseBackend::Sqlite, failed: false }
}

/// A statement that succeeds and one whose failure is passed over bring the run on by one; any
/// other failure ends it where it stands. Nothing else of the run changes.
pub proof fn law_each_statement_counts_once(run: RunView, succeeded: bool)
    ensures
        succeeded ==> verdict_of(run.tolerant, succeeded) == Verdict::Succeeded,
        !succeeded && run.tolerant ==> verdict_of(run.tolerant, succeeded) == Verdict::Ignored,
        !succeeded && !run.tolerant ==> verdict_of(run.tolerant, succeeded) == Verdict::Failed,
        succeeded || run.tolerant ==> run_after(run, succeeded).next == run.next + 1 && run_after(
            run,
            succeeded,
        ).failed == run.failed,
        !succeeded && !run.tolerant ==> run_after(run, succeeded).next == run.next && run_after(
            run,
            succeeded,
        ).failed,
        run_after(run, succeeded).statements == run.statements,
        run_after(run, succeeded).tolerant == run.tolerant,
{
}

/// A run says what it holds: it is over where it failed or did all its statements, and at its
/// start nothing was done and nothing failed.
pub proof fn law_runs_say_what_they_hold(
    run: MigrationRun,
    statements: Seq<Seq<char>>,
    tolerant: bool,
    i: int,
)
    ensures
        statement_texts(run.statements@).len() == run.statements@.len(),
        0 <= i < run.statements@.len() ==> statement_texts(run.statements@)[i]
            == run.statements@[i]@,
        run_view(run).statements == statement_texts(run.statements@),
        run_view(run).next == run.next && run_view(run).tolerant == run.tolerant && run_view(
            run,
        ).failed == run.failed,
        run.is_over() <==> run.failed || run.next == run.statements@.len(),
        run.well_formed() <==> run.next <= run.statements@.len(),
        run.is_start(statements, tolerant) ==> {
            &&& run.next == 0 && !run.failed && run.tolerant == tolerant
            &&& run.statements@.len() == statements.len()
            &&& 0 <= i < statements.len() ==> run.statements@[i]@ == statements[i]
            &&& run.is_over() <==> statements.len() == 0
        },
{
}

}
