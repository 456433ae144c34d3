//! Counts the completed file searches of each turn.

use vstd::prelude::*;

use crate::migrations::{drop_run, statement_texts, strict_run, DatabaseBackend, MigrationRun};

verus! {

pub const ADD_COUNT: &'static str =
    "ALTER TABLE chat_turns ADD COLUMN file_search_completed_count INT NOT NULL DEFAULT 0";

pub const DROP_COUNT: &'static str =
    "ALTER TABLE chat_turns DROP COLUMN file_search_completed_count";

/// The migration that adds the counter.
#[derive(Debug)]
pub struct Migration;

/// The statements that add the counter.
pub open spec fn up_statements() -> Seq<Seq<char>> {
    seq![ADD_COUNT@]
}

/// The statements that drop the counter.
pub open spec fn down_statements() -> Seq<Seq<char>> {
    seq![DROP_COUNT@]
}

impl Migration {
    /// The run that adds the counter.
    pub fn up(&self) -> (r: MigrationRun)
        ensures
            r.is_start(up_statements(), false),
    {
        let mut statements: Vec<&'static str> = Vec::new();
        statements.push(ADD_COUNT);
        proof {
            assert(statement_texts(statements@) =~= up_statements());
        }
        strict_run(statements)
    }

    /// The run that drops the counter.
    pub fn down(&self, backend: DatabaseBackend) -> (r: MigrationRun)
        ensures
            r.is_start(down_statements(), backend == DatabaseBackend::Sqlite),
    {
        let mut statements: Vec<&'static str> = Vec::new();
        statements.push(DROP_COUNT);
        proof {
            assert(statement_texts(statements@) =~= down_statements());
        }
        drop_run(statements, backend)
    }
}

/// The way down drops the column that the way up adds, each in one statement.
pub proof fn law_down_undoes_up()
    ensures
        up_statements().len() == 1 && up_statements()[0] == ADD_COUNT@,
        down_statements().len() == 1 && down_statements()[0] == DROP_COUNT@,
        ADD_COUNT@ == "ALTER TABLE chat_turns ADD COLUMN "@ + "file_search_completed_count"@
            + " INT NOT NULL DEFAULT 0"@,
        DROP_COUNT@ == "ALTER TABLE chat_turns DROP COLUMN "@ + "file_search_completed_count"@,
{
    reveal_strlit("ALTER TABLE chat_turns ADD COLUMN file_search_completed_count INT NOT NULL DEFAULT 0");
    reveal_strlit("ALTER TABLE chat_turns DROP COLUMN file_search_completed_count");
    reveal_strlit("ALTER TABLE chat_turns ADD COLUMN ");
    reveal_strlit("ALTER TABLE chat_turns DROP COLUMN ");
    reveal_strlit("file_search_completed_count");
    reveal_strlit(" INT NOT NULL DEFAULT 0");
    assert(ADD_COUNT@ =~= "ALTER TABLE chat_turns ADD COLUMN "@ + "file_search_completed_count"@
        + " INT NOT NULL DEFAULT 0"@);
    assert(DROP_COUNT@ =~= "ALTER TABLE chat_turns DROP COLUMN "@ + "file_search_completed_count"@);
}

}
