//! The verification back ends the scheduler is built with.

use vstd::prelude::*;

verus! {

/// Verifies the entry hashes (proof-of-history) of a block.
pub trait VerifyEntryHash {}

/// Verifies the transaction signatures of a block.
pub trait VerifySignature {}

} // verus!
