//! Data model of the generated update stream: the three event shapes that
//! travel from the traffic generator through the bounded channel to the
//! dispatch loop, and the configuration error raised at startup.

use vstd::prelude::*;

verus! {

/// Malformed startup configuration: a compressibility fraction outside
/// `[0, 1]`, a zero period duration, an empty size-class table or an empty
/// account-key pool. Detected before any traffic is generated.
#[derive(Clone, Copy, Debug, PartialEq, Eq, Structural)]
pub enum ConfigError {
    InvalidArgument,
}

/// Commitment level of a period: a monotonically increasing confidence tier.
#[derive(Clone, Copy, Debug, PartialEq, Eq, Structural)]
pub enum CommitmentLevel {
    Processed,
    Confirmed,
    Finalized,
}

/// One synthetic account-state update. The payload is chosen by the batch
/// planner and synthesized once; it is never mutated afterwards.
#[derive(Debug)]
pub struct MockAccount {
    pub slot: u64,
    pub pubkey: [u8; 32],
    pub lamports: u64,
    pub data: Vec<u8>,
    pub owner: [u8; 32],
    pub executable: bool,
    pub rent_epoch: u64,
}

/// A slot-status transition for one period.
#[derive(Clone, Copy, Debug)]
pub struct MockSlot {
    pub slot: u64,
    pub commitment_level: CommitmentLevel,
}

/// Block metadata, emitted once per period when the period first reaches the
/// lowest commitment level.
#[derive(Debug)]
pub struct MockBlockMeta {
    pub slot: u64,
    pub parent_slot: u64,
    pub parent_blockhash: String,
    pub blockhash: String,
    pub executed_transaction_count: u32,
    pub entry_count: u32,
}

/// One message on the bounded channel between generator and dispatch loop.
#[derive(Debug)]
pub enum MockMessage {
    Account(MockAccount),
    Slot(MockSlot),
    BlockMeta(MockBlockMeta),
}

} // verus!
