//! The states of attachments, and the migrations.

use mini_chat_llm::attachment::{
    secondary_provider_kind, AttachmentKind, AttachmentStatus, CleanupStatus,
    SecondaryUploadStatus,
};
use mini_chat_llm::migrations::{
    m20260417_000004_add_secondary_upload_fields, m20260512_000005_add_file_search_count,
    DatabaseBackend, MigrationRun, Verdict,
};
use mini_chat_llm::mime_validation;

#[test]
fn states_and_their_texts() {
    for (status, text, terminal) in [
        (AttachmentStatus::Pending, "pending", false),
        (AttachmentStatus::Uploaded, "uploaded", false),
        (AttachmentStatus::Ready, "ready", true),
        (AttachmentStatus::Failed, "failed", true),
    ] {
        assert_eq!(status.as_str(), text);
        assert_eq!(status.is_terminal(), terminal);
        assert_eq!(status.is_transient(), !terminal);
    }
    assert_eq!(CleanupStatus::Pending.as_str(), "pending");
    assert_eq!(CleanupStatus::Done.as_str(), "done");
    assert_eq!(CleanupStatus::Failed.as_str(), "failed");
    assert_eq!(SecondaryUploadStatus::NotAttempted.as_str(), "not_attempted");
    assert_eq!(SecondaryUploadStatus::Pending.as_str(), "pending");
    assert_eq!(SecondaryUploadStatus::Uploaded.as_str(), "uploaded");
    assert_eq!(SecondaryUploadStatus::Failed.as_str(), "failed");
    assert_eq!(secondary_provider_kind::ANTHROPIC, "anthropic");
}

#[test]
fn kinds_convert_both_ways() {
    for (kind, upload, text) in [
        (AttachmentKind::Document, mime_validation::AttachmentKind::Document, "document"),
        (AttachmentKind::Image, mime_validation::AttachmentKind::Image, "image"),
    ] {
        assert_eq!(AttachmentKind::from(upload), kind);
        assert_eq!(mime_validation::AttachmentKind::from(kind), upload);
        assert_eq!(kind.as_str(), text);
    }
}

/// Runs all statements; those that hold `fails` fail.
fn run(mut migration: MigrationRun, fails: &str) -> (Vec<&'static str>, Option<Verdict>) {
    let mut executed = Vec::new();
    let mut last = None;
    while let Some(sql) = migration.statement() {
        executed.push(sql);
        last = Some(migration.record(!sql.contains(fails)));
    }
    (executed, last)
}

#[test]
fn upload_fields_are_added_and_dropped() {
    let migration = m20260417_000004_add_secondary_upload_fields::Migration;
    let (executed, last) = run(migration.up(), "nothing");
    assert_eq!(
        executed,
        [
            "ALTER TABLE attachments ADD COLUMN secondary_file_id VARCHAR(128)",
            "ALTER TABLE attachments ADD COLUMN secondary_status VARCHAR(16) NOT NULL DEFAULT 'not_attempted' \
             CHECK (secondary_status IN ('not_attempted', 'pending', 'uploaded', 'failed'))",
            "ALTER TABLE attachments ADD COLUMN secondary_provider_kind VARCHAR(32) \
             CHECK (secondary_provider_kind IS NULL OR secondary_provider_kind IN ('anthropic'))",
        ]
    );
    assert_eq!(last, Some(Verdict::Succeeded));
    let (executed, last) = run(migration.up(), "secondary_status");
    assert_eq!(executed.len(), 2);
    assert_eq!(last, Some(Verdict::Failed));
    let (executed, last) = run(migration.down(DatabaseBackend::Sqlite), "DROP");
    assert_eq!(
        executed,
        [
            "ALTER TABLE attachments DROP COLUMN secondary_provider_kind",
            "ALTER TABLE attachments DROP COLUMN secondary_status",
            "ALTER TABLE attachments DROP COLUMN secondary_file_id",
        ]
    );
    assert_eq!(last, Some(Verdict::Ignored));
    for backend in [DatabaseBackend::Postgres, DatabaseBackend::MySql] {
        let (executed, last) = run(migration.down(backend), "secondary_status");
        assert_eq!(executed.len(), 2);
        assert_eq!(last, Some(Verdict::Failed));
    }
}

#[test]
fn search_counter_is_added_and_dropped() {
    let migration = m20260512_000005_add_file_search_count::Migration;
    let (executed, _) = run(migration.up(), "nothing");
    assert_eq!(
        executed,
        ["ALTER TABLE chat_turns ADD COLUMN file_search_completed_count INT NOT NULL DEFAULT 0"]
    );
    let (executed, last) = run(migration.down(DatabaseBackend::Sqlite), "DROP");
    assert_eq!(executed, ["ALTER TABLE chat_turns DROP COLUMN file_search_completed_count"]);
    assert_eq!(last, Some(Verdict::Ignored));
    let (_, last) = run(migration.down(DatabaseBackend::Postgres), "DROP");
    assert_eq!(last, Some(Verdict::Failed));
}
