//! What the validation of an upload's type tells of it.

use vstd::prelude::*;

verus! {

/// Classification of an upload.
#[derive(Debug, Clone, Copy, PartialEq, Eq, Structural)]
pub enum AttachmentKind {
    Document,
    Image,
}

}
