//! The states of an attachment, and the texts under which they are stored.

use vstd::prelude::*;
use vstd::std_specs::convert::FromSpecImpl;

use crate::mime_validation;

pub mod secondary_provider_kind;

verus! {

/// The lifecycle of an attachment: pending → uploaded → ready | failed.
#[derive(Debug, Clone, Copy, PartialEq, Eq, Structural)]
pub enum AttachmentStatus {
    Pending,
    Uploaded,
    Ready,
    Failed,
}

impl AttachmentStatus {
    /// The text under which the status is stored.
    pub open spec fn stored_text(self) -> Seq<char> {
        match self {
            AttachmentStatus::Pending => "pending"@,
            AttachmentStatus::Uploaded => "uploaded"@,
            AttachmentStatus::Ready => "ready"@,
            AttachmentStatus::Failed => "failed"@,
        }
    }

    /// The text under which the status is stored.
    pub fn as_str(&self) -> (r: &'static str)
        ensures
            r@ == self.stored_text(),
    {
        match self {
            AttachmentStatus::Pending => "pending",
            AttachmentStatus::Uploaded => "uploaded",
            AttachmentStatus::Ready => "ready",
            AttachmentStatus::Failed => "failed",
        }
    }

    /// No further transition leaves the status.
    pub open spec fn terminal(self) -> bool {
        self == AttachmentStatus::Ready || self == AttachmentStatus::Failed
    }

    /// Returns `true` if the status is terminal (ready or failed, with no further transitions).
    pub fn is_terminal(&self) -> (r: bool)
        ensures
            r == self.terminal(),
    {
        matches!(self, AttachmentStatus::Ready | AttachmentStatus::Failed)
    }

    /// Returns `true` if the status is transient (pending or uploaded, still in progress).
    pub fn is_transient(&self) -> (r: bool)
        ensures
            r == (*self == AttachmentStatus::Pending || *self == AttachmentStatus::Uploaded),
            r == !self.terminal(),
    {
        !self.is_terminal()
    }
}

/// The cleanup of a deleted attachment: not begun → pending → done | failed.
#[derive(Debug, Clone, Copy, PartialEq, Eq, Structural)]
pub enum CleanupStatus {
    Pending,
    Done,
    Failed,
}

impl CleanupStatus {
    /// The text under which the status is stored.
    pub open spec fn stored_text(self) -> Seq<char> {
        match self {
            CleanupStatus::Pending => "pending"@,
            CleanupStatus::Done => "done"@,
            CleanupStatus::Failed => "failed"@,
        }
    }

    /// The text under which the status is stored.
    pub fn as_str(&self) -> (r: &'static str)
        ensures
            r@ == self.stored_text(),
    {
        match self {
            CleanupStatus::Pending => "pending",
            CleanupStatus::Done => "done",
            CleanupStatus::Failed => "failed",
        }
    }
}

/// Classification of attachment content.
#[derive(Debug, Clone, Copy, PartialEq, Eq, Structural)]
pub enum AttachmentKind {
    Document,
    Image,
}

impl AttachmentKind {
    /// The text under which the kind is stored.
    pub open spec fn stored_text(self) -> Seq<char> {
        match self {
            AttachmentKind::Document => "document"@,
            AttachmentKind::Image => "image"@,
        }
    }

    /// The text under which the kind is stored.
    pub fn as_str(&self) -> (r: &'static str)
        ensures
            r@ == self.stored_text(),
    {
        match self {
            AttachmentKind::Document => "document",
            AttachmentKind::Image => "image",
        }
    }
}

/// The stored kind for what the validation tells.
pub open spec fn kind_of_upload(k: mime_validation::AttachmentKind) -> AttachmentKind {
    match k {
        mime_validation::AttachmentKind::Document => AttachmentKind::Document,
        mime_validation::AttachmentKind::Image => AttachmentKind::Image,
    }
}

/// What the validation told, for a stored kind.
pub open spec fn upload_of_kind(k: AttachmentKind) -> mime_validation::AttachmentKind {
    match k {
        AttachmentKind::Document => mime_validation::AttachmentKind::Document,
        AttachmentKind::Image => mime_validation::AttachmentKind::Image,
    }
}

impl From<mime_validation::AttachmentKind> for AttachmentKind {
    fn from(k: mime_validation::AttachmentKind) -> (r: AttachmentKind) {
        match k {
            mime_validation::AttachmentKind::Document => AttachmentKind::Document,
            mime_validation::AttachmentKind::Image => AttachmentKind::Image,
        }
    }
}

impl FromSpecImpl<mime_validation::AttachmentKind> for AttachmentKind {
    open spec fn obeys_from_spec() -> bool {
        true
    }

    open spec fn from_spec(k: mime_validation::AttachmentKind) -> AttachmentKind {
        kind_of_upload(k)
    }
}

impl From<AttachmentKind> for mime_validation::AttachmentKind {
    fn from(k: AttachmentKind) -> (r: mime_validation::AttachmentKind) {
        match k {
            AttachmentKind::Document => mime_validation::AttachmentKind::Document,
            AttachmentKind::Image => mime_validation::AttachmentKind::Image,
        }
    }
}

impl FromSpecImpl<AttachmentKind> for mime_validation::AttachmentKind {
    open spec fn obeys_from_spec() -> bool {
        true
    }

    open spec fn from_spec(k: AttachmentKind) -> mime_validation::AttachmentKind {
        upload_of_kind(k)
    }
}

/// The lifecycle of the optional second upload of an attachment, to another provider:
/// not attempted → pending → uploaded | failed.
#[derive(Debug, Clone, Copy, PartialEq, Eq, Structural)]
pub enum SecondaryUploadStatus {
    /// There was no attempt at a second upload.
    NotAttempted,
    /// The upload is under way, or was cut short and can be tried again.
    Pending,
    /// The upload succeeded; the file's id and the provider are known.
    Uploaded,
    /// The upload failed; there is no file id, and blocks that would need it are left out.
    Failed,
}

impl SecondaryUploadStatus {
    /// The text under which the status is stored.
    pub open spec fn stored_text(self) -> Seq<char> {
        match self {
            SecondaryUploadStatus::NotAttempted => "not_attempted"@,
            SecondaryUploadStatus::Pending => "pending"@,
            SecondaryUploadStatus::Uploaded => "uploaded"@,
            SecondaryUploadStatus::Failed => "failed"@,
        }
    }

    /// The text under which the status is stored.
    pub fn as_str(&self) -> (r: &'static str)
        ensures
            r@ == self.stored_text(),
    {
        match self {
            SecondaryUploadStatus::NotAttempted => "not_attempted",
            SecondaryUploadStatus::Pending => "pending",
            SecondaryUploadStatus::Uploaded => "uploaded",
            SecondaryUploadStatus::Failed => "failed",
        }
    }
}

/// Every status is either terminal or transient, by what `is_terminal` and `is_transient` say.
pub proof fn law_status_is_terminal_or_transient(s: AttachmentStatus)
    ensures
        s.terminal() <==> !(s == AttachmentStatus::Pending || s == AttachmentStatus::Uploaded),
{
}

/// The two classifications of an upload stand for one another: there and back again is the same.
pub proof fn law_kinds_convert_both_ways(
    kind: AttachmentKind,
    upload: mime_validation::AttachmentKind,
)
    ensures
        kind_of_upload(upload_of_kind(kind)) == kind,
        upload_of_kind(kind_of_upload(upload)) == upload,
{
}

/// Each stored text stands for one value of its column.
pub proof fn law_stored_texts_differ(
    status: (AttachmentStatus, AttachmentStatus),
    cleanup: (CleanupStatus, CleanupStatus),
    kind: (AttachmentKind, AttachmentKind),
    secondary: (SecondaryUploadStatus, SecondaryUploadStatus),
)
    ensures
        status.0.stored_text() == status.1.stored_text() ==> status.0 == status.1,
        cleanup.0.stored_text() == cleanup.1.stored_text() ==> cleanup.0 == cleanup.1,
        kind.0.stored_text() == kind.1.stored_text() ==> kind.0 == kind.1,
        secondary.0.stored_text() == secondary.1.stored_text() ==> secondary.0 == secondary.1,
{
    reveal_strlit("pending");
    reveal_strlit("uploaded");
    reveal_strlit("ready");
    reveal_strlit("failed");
    reveal_strlit("done");
    reveal_strlit("document");
    reveal_strlit("image");
    reveal_strlit("not_attempted");
    assert("pending"@.len() == 7);
    assert("uploaded"@.len() == 8);
    assert("ready"@.len() == 5);
    assert("failed"@.len() == 6);
    assert("done"@.len() == 4);
    assert("document"@.len() == 8);
    assert("image"@.len() == 5);
    assert("not_attempted"@.len() == 13);
}

}
