//! The protocol's fixed parameters.

use vstd::prelude::*;

verus! {

/// Namespace of the keys under which dare records are stored.
pub const DARE_SEED: [u8; 4] = [100, 97, 114, 101];

/// Namespace of the keys under which escrow vaults are held.
pub const VAULT_SEED: [u8; 5] = [118, 97, 117, 108, 116];

/// Namespace of the keys under which user statistics are stored.
pub const USER_STATS_SEED: [u8; 10] = [117, 115, 101, 114, 95, 115, 116, 97, 116, 115];

/// The longest time a deadline may lie ahead of creation: 30 days, in seconds.
pub const MAX_DEADLINE_DURATION: i64 = 2_592_000;

/// The grace period after the deadline in which the challenger may still
/// reject a submitted proof: 72 hours, in seconds. Once it has passed, anyone
/// may have the escrow released to the daree.
pub const DISPUTE_WINDOW: i64 = 259_200;

} // verus!
