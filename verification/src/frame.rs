//! Identifiers that reference entities living in separately parsed tables.

use vstd::prelude::*;

verus! {

/// Opaque, backup-file-scoped key referencing a recipient in the
/// recipient table built earlier in the parse.
#[derive(Clone, Copy, Debug, PartialEq, Eq, Structural)]
#[verifier::ext_equal]
pub struct RecipientId(pub u64);

} // verus!
