//! Gives attachments a place for a second upload, to another provider than the first.
//!
//! The columns carry no provider's name, so that another provider can use them later.

use vstd::prelude::*;

use crate::attachment::{secondary_provider_kind, SecondaryUploadStatus};
use crate::migrations::{drop_run, statement_texts, strict_run, DatabaseBackend, MigrationRun};
use crate::text::join_texts;

verus! {

pub const ADD_FILE_ID: &'static str =
    "ALTER TABLE attachments ADD COLUMN secondary_file_id VARCHAR(128)";

pub const ADD_STATUS: &'static str =
    "ALTER TABLE attachments ADD COLUMN secondary_status VARCHAR(16) NOT NULL DEFAULT 'not_attempted' CHECK (secondary_status IN ('not_attempted', 'pending', 'uploaded', 'failed'))";

pub const ADD_PROVIDER_KIND: &'static str =
    "ALTER TABLE attachments ADD COLUMN secondary_provider_kind VARCHAR(32) CHECK (secondary_provider_kind IS NULL OR secondary_provider_kind IN ('anthropic'))";

pub const DROP_PROVIDER_KIND: &'static str =
    "ALTER TABLE attachments DROP COLUMN secondary_provider_kind";

pub const DROP_STATUS: &'static str = "ALTER TABLE attachments DROP COLUMN secondary_status";

pub const DROP_FILE_ID: &'static str = "ALTER TABLE attachments DROP COLUMN secondary_file_id";

/// The migration that adds the columns of the second upload.
#[derive(Debug)]
pub struct Migration;

/// The statements that add the columns.
pub open spec fn up_statements() -> Seq<Seq<char>> {
    seq![ADD_FILE_ID@, ADD_STATUS@, ADD_PROVIDER_KIND@]
}

/// The statements that drop the columns.
pub open spec fn down_statements() -> Seq<Seq<char>> {
    seq![DROP_PROVIDER_KIND@, DROP_STATUS@, DROP_FILE_ID@]
}

impl Migration {
    /// The run that adds the columns. The same statements work on Postgres and on SQLite.
    pub fn up(&self) -> (r: MigrationRun)
        ensures
            r.is_start(up_statements(), false),
    {
        let mut statements: Vec<&'static str> = Vec::new();
        statements.push(ADD_FILE_ID);
        statements.push(ADD_STATUS);
        statements.push(ADD_PROVIDER_KIND);
        proof {
            assert(statement_texts(statements@) =~= up_statements());
        }
        strict_run(statements)
    }

    /// The run that drops the columns.
    pub fn down(&self, backend: DatabaseBackend) -> (r: MigrationRun)
        ensures
            r.is_start(down_statements(), backend == DatabaseBackend::Sqlite),
    {
        let mut statements: Vec<&'static str> = Vec::new();
        statements.push(DROP_PROVIDER_KIND);
        statements.push(DROP_STATUS);
        statements.push(DROP_FILE_ID);
        proof {
            assert(statement_texts(statements@) =~= down_statements());
        }
        drop_run(statements, backend)
    }
}

/// The columns in the order in which they are added.
pub open spec fn columns() -> Seq<Seq<char>> {
    seq!["secondary_file_id"@, "secondary_status"@, "secondary_provider_kind"@]
}

/// The statement adds this column to the attachments.
pub open spec fn adds_column(statement: Seq<char>, column: Seq<char>) -> bool {
    ("ALTER TABLE attachments ADD COLUMN "@ + column + " "@).is_prefix_of(statement)
}

/// The way down drops the columns that the way up adds, the last one first.
pub proof fn law_down_undoes_up(i: int)
    requires
        0 <= i < columns().len(),
    ensures
        up_statements().len() == columns().len(),
        down_statements().len() == columns().len(),
        adds_column(up_statements()[i], columns()[i]),
        down_statements()[columns().len() - 1 - i] == "ALTER TABLE attachments DROP COLUMN "@
            + columns()[i],
{
    reveal_strlit("ALTER TABLE attachments ADD COLUMN secondary_file_id VARCHAR(128)");
    reveal_strlit("ALTER TABLE attachments ADD COLUMN secondary_status VARCHAR(16) NOT NULL DEFAULT 'not_attempted' CHECK (secondary_status IN ('not_attempted', 'pending', 'uploaded', 'failed'))");
    reveal_strlit("ALTER TABLE attachments ADD COLUMN secondary_provider_kind VARCHAR(32) CHECK (secondary_provider_kind IS NULL OR secondary_provider_kind IN ('anthropic'))");
    reveal_strlit("ALTER TABLE attachments DROP COLUMN secondary_provider_kind");
    reveal_strlit("ALTER TABLE attachments DROP COLUMN secondary_status");
    reveal_strlit("ALTER TABLE attachments DROP COLUMN secondary_file_id");
    reveal_strlit("ALTER TABLE attachments ADD COLUMN ");
    reveal_strlit("ALTER TABLE attachments DROP COLUMN ");
    reveal_strlit("secondary_file_id");
    reveal_strlit("secondary_status");
    reveal_strlit("secondary_provider_kind");
    reveal_strlit(" ");
    let head = "ALTER TABLE attachments ADD COLUMN "@ + columns()[i] + " "@;
    if i == 0 {
        assert(ADD_FILE_ID@.take(head.len() as int) =~= head);
        assert(DROP_FILE_ID@ =~= "ALTER TABLE attachments DROP COLUMN "@ + columns()[i]);
    } else if i == 1 {
        assert(ADD_STATUS@.take(head.len() as int) =~= head);
        assert(DROP_STATUS@ =~= "ALTER TABLE attachments DROP COLUMN "@ + columns()[i]);
    } else {
        assert(ADD_PROVIDER_KIND@.take(head.len() as int) =~= head);
        assert(DROP_PROVIDER_KIND@ =~= "ALTER TABLE attachments DROP COLUMN "@ + columns()[i]);
    }
}

/// The texts of all states of a second upload.
pub open spec fn all_status_texts() -> Seq<Seq<char>> {
    seq![
        SecondaryUploadStatus::NotAttempted.stored_text(),
        SecondaryUploadStatus::Pending.stored_text(),
        SecondaryUploadStatus::Uploaded.stored_text(),
        SecondaryUploadStatus::Failed.stored_text(),
    ]
}

/// The list holds every state.
proof fn lemma_all_states_are_listed(s: SecondaryUploadStatus)
    ensures
        all_status_texts().contains(s.stored_text()),
{
    let texts = all_status_texts();
    match s {
        SecondaryUploadStatus::NotAttempted => assert(texts[0] == s.stored_text()),
        SecondaryUploadStatus::Pending => assert(texts[1] == s.stored_text()),
        SecondaryUploadStatus::Uploaded => assert(texts[2] == s.stored_text()),
        SecondaryUploadStatus::Failed => assert(texts[3] == s.stored_text()),
    }
}

/// The column takes the texts of all states of a second upload and no others, and starts with
/// the one for no attempt.
pub proof fn law_status_column_takes_all_states(s: SecondaryUploadStatus)
    ensures
        all_status_texts().contains(s.stored_text()),
        ADD_STATUS@
            == "ALTER TABLE attachments ADD COLUMN secondary_status VARCHAR(16) NOT NULL DEFAULT '"@
            + SecondaryUploadStatus::NotAttempted.stored_text()
            + "' CHECK (secondary_status IN ('"@ + join_texts(all_status_texts(), "', '"@)
            + "'))"@,
{
    lemma_all_states_are_listed(s);
    reveal_strlit("ALTER TABLE attachments ADD COLUMN secondary_status VARCHAR(16) NOT NULL DEFAULT 'not_attempted' CHECK (secondary_status IN ('not_attempted', 'pending', 'uploaded', 'failed'))");
    reveal_strlit("ALTER TABLE attachments ADD COLUMN secondary_status VARCHAR(16) NOT NULL DEFAULT '");
    reveal_strlit("not_attempted");
    reveal_strlit("pending");
    reveal_strlit("uploaded");
    reveal_strlit("failed");
    reveal_strlit("' CHECK (secondary_status IN ('");
    reveal_strlit("', '");
    reveal_strlit("'))");
    let texts = all_status_texts();
    reveal_with_fuel(join_texts, 4);
    let joined = join_texts(texts, "', '"@);
    assert(texts.drop_last().drop_last().drop_last() =~= seq![texts[0]]);
    assert(joined =~= texts[0] + "', '"@ + texts[1] + "', '"@ + texts[2] + "', '"@ + texts[3]);
    assert(ADD_STATUS@
        =~= "ALTER TABLE attachments ADD COLUMN secondary_status VARCHAR(16) NOT NULL DEFAULT '"@
        + "not_attempted"@ + "' CHECK (secondary_status IN ('"@ + joined + "'))"@);
}

/// The column takes the provider kinds that are stored, and no others.
pub proof fn law_provider_column_takes_stored_kinds()
    ensures
        ADD_PROVIDER_KIND@
            == "ALTER TABLE attachments ADD COLUMN secondary_provider_kind VARCHAR(32) CHECK (secondary_provider_kind IS NULL OR secondary_provider_kind IN ('"@
            + secondary_provider_kind::ANTHROPIC@ + "'))"@,
{
    reveal_strlit("ALTER TABLE attachments ADD COLUMN secondary_provider_kind VARCHAR(32) CHECK (secondary_provider_kind IS NULL OR secondary_provider_kind IN ('anthropic'))");
    reveal_strlit("ALTER TABLE attachments ADD COLUMN secondary_provider_kind VARCHAR(32) CHECK (secondary_provider_kind IS NULL OR secondary_provider_kind IN ('");
    reveal_strlit("anthropic");
    reveal_strlit("'))");
    assert(ADD_PROVIDER_KIND@
        =~= "ALTER TABLE attachments ADD COLUMN secondary_provider_kind VARCHAR(32) CHECK (secondary_provider_kind IS NULL OR secondary_provider_kind IN ('"@
        + "anthropic"@ + "'))"@);
}

}
