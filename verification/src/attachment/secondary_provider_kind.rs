//! The providers that the column `secondary_provider_kind` can name.

use vstd::prelude::*;

verus! {

pub const ANTHROPIC: &'static str = "anthropic";

}
