//! Traffic generator decisions: the validated startup configuration, the
//! period counter, the building of one account update from a planned size,
//! and the events a period boundary emits. The surrounding period loop —
//! channel submission and timed waits — lives outside the library and calls
//! these functions with plain values.

use vstd::prelude::*;
use vstd::arithmetic::div_mod::lemma_mod_bound;
use vstd::string::StringExecFns;
use crate::events::{CommitmentLevel, ConfigError, MockAccount, MockBlockMeta, MockMessage, MockSlot};
use crate::synth::{synthesize, synth_byte, Compressibility, COMPRESSIBILITY_SCALE};

verus! {

/// First period id: a large fixed baseline that mimics realistic period
/// numbering.
pub const PERIOD_BASELINE: u64 = 42_000_000;

/// Write version stamped on every forwarded account update.
pub const ACCOUNT_WRITE_VERSION: u64 = 999_999;

/// Validated startup state of the traffic generator: the per-period byte
/// budget, the compressibility of synthesized payloads, the period duration,
/// the size-class table, and the fixed pool of account identifiers reused
/// cyclically across updates.
#[derive(Debug)]
pub struct TrafficConfig {
    pub bytes_per_slot: u64,
    pub compressibility: Compressibility,
    pub slot_duration_micros: u64,
    pub size_classes: Vec<u64>,
    pub owner: [u8; 32],
    pub account_pubkeys: Vec<[u8; 32]>,
}

impl TrafficConfig {
    pub open spec fn wf(self) -> bool {
        &&& self.compressibility.wf()
        &&& self.slot_duration_micros > 0
        &&& self.size_classes@.len() > 0
        &&& self.account_pubkeys@.len() > 0
    }

    /// Validates the configuration surface once, at startup: a
    /// compressibility fraction above one, a zero period duration, an empty
    /// size-class table or an empty key pool are malformed and refused, and
    /// no traffic is generated from them.
    pub fn new(
        bytes_per_slot: u64,
        compressibility_bps: u16,
        slot_duration_micros: u64,
        size_classes: Vec<u64>,
        owner: [u8; 32],
        account_pubkeys: Vec<[u8; 32]>,
    ) -> (r: Result<TrafficConfig, ConfigError>)
        ensures
            r is Ok <==> (compressibility_bps <= COMPRESSIBILITY_SCALE && slot_duration_micros > 0
                && size_classes@.len() > 0 && account_pubkeys@.len() > 0),
            r matches Ok(cfg) ==> {
                &&& cfg.wf()
                &&& cfg.bytes_per_slot == bytes_per_slot
                &&& cfg.compressibility.bps() == compressibility_bps
                &&& cfg.slot_duration_micros == slot_duration_micros
                &&& cfg.size_classes@ == size_classes@
                &&& cfg.owner == owner
                &&& cfg.account_pubkeys@ == account_pubkeys@
            },
            r matches Err(e) ==> e == ConfigError::InvalidArgument,
    {
        if slot_duration_micros == 0 {
            return Err(ConfigError::InvalidArgument);
        }
        if size_classes.len() == 0 {
            return Err(ConfigError::InvalidArgument);
        }
        if account_pubkeys.len() == 0 {
            return Err(ConfigError::InvalidArgument);
        }
        let compressibility = match Compressibility::new(compressibility_bps) {
            Ok(c) => c,
            Err(e) => {
                return Err(e);
            },
        };
        Ok(
            TrafficConfig {
                bytes_per_slot,
                compressibility,
                slot_duration_micros,
                size_classes,
                owner,
                account_pubkeys,
            },
        )
    }
}

/// The empirical size-class table of the emulated update stream: a repeating
/// pattern of empty, small, medium and large payloads.
pub fn mainnet_size_classes() -> (r: Vec<u64>)
    ensures
        r@ == seq![0u64, 8u64, 8u64, 165u64, 165u64, 165u64, 165u64, 11099u64, 11099u64, 11099u64, 11099u64, 11099u64, 11099u64],
{
    let mut v: Vec<u64> = Vec::new();
    v.push(0);
    v.push(8);
    v.push(8);
    v.push(165);
    v.push(165);
    v.push(165);
    v.push(165);
    v.push(11099);
    v.push(11099);
    v.push(11099);
    v.push(11099);
    v.push(11099);
    v.push(11099);
    proof {
        assert(v@ =~= seq![
            0u64,
            8u64,
            8u64,
            165u64,
            165u64,
            165u64,
            165u64,
            11099u64,
            11099u64,
            11099u64,
            11099u64,
            11099u64,
            11099u64,
        ]);
    }
    v
}

/// The period counter: an unbounded incrementing id starting at the
/// baseline.
pub struct GeneratorState {
    pub next_slot: u64,
}

impl GeneratorState {
    pub fn new() -> (r: GeneratorState)
        ensures
            r.next_slot == PERIOD_BASELINE,
    {
        GeneratorState { next_slot: PERIOD_BASELINE }
    }

    /// Hands out the id of the period that starts now and advances the
    /// counter.
    pub fn begin_period(&mut self) -> (slot: u64)
        requires
            old(self).next_slot < u64::MAX,
        ensures
            slot == old(self).next_slot,
            final(self).next_slot == old(self).next_slot + 1,
    {
        let slot = self.next_slot;
        self.next_slot = self.next_slot + 1;
        slot
    }
}

/// Builds the `index`-th account update of a period: the key is drawn
/// cyclically from the fixed pool, the payload is synthesized at the planned
/// size under the configured compressibility, and the balance field carries
/// the caller's timestamp.
pub fn build_account_update(
    cfg: &TrafficConfig,
    slot: u64,
    index: usize,
    data_size: u64,
    now_micros: u64,
) -> (r: MockAccount)
    requires
        cfg.wf(),
        data_size <= usize::MAX,
    ensures
        r.slot == slot,
        r.pubkey == cfg.account_pubkeys@[index as int % (cfg.account_pubkeys@.len() as int)],
        r.lamports == now_micros,
        r.data@.len() == data_size,
        forall|i: int|
            0 <= i < r.data@.len() ==> r.data@[i] == synth_byte(
                data_size as int,
                cfg.compressibility.bps() as int,
                i,
            ),
        r.owner == cfg.owner,
        r.executable == false,
        r.rent_epoch == 0,
{
    proof {
        lemma_mod_bound(index as int, cfg.account_pubkeys@.len() as int);
    }
    let pubkey = cfg.account_pubkeys[index % cfg.account_pubkeys.len()];
    let data = synthesize(data_size as usize, &cfg.compressibility);
    MockAccount {
        slot,
        pubkey,
        lamports: now_micros,
        data,
        owner: cfg.owner,
        executable: false,
        rent_epoch: 0,
    }
}

/// Builds the fixed greeting update of the hello-world traffic source: a
/// constant slot, an empty balance and a three-byte payload, sent over and
/// over at a fixed pace by the surrounding loop.
pub fn helloworld_account(pubkey: [u8; 32], owner: [u8; 32]) -> (r: MockAccount)
    ensures
        r.slot == 999_888,
        r.pubkey == pubkey,
        r.lamports == 0,
        r.data@ == seq![1u8, 2u8, 3u8],
        r.owner == owner,
        r.executable == false,
        r.rent_epoch == 0,
{
    let mut data: Vec<u8> = Vec::new();
    data.push(1);
    data.push(2);
    data.push(3);
    proof {
        assert(data@ =~= seq![1u8, 2u8, 3u8]);
    }
    MockAccount { slot: 999_888, pubkey, lamports: 0, data, owner, executable: false, rent_epoch: 0 }
}

/// The events a period boundary emits: a slot-status transition at the
/// lowest commitment level, and — only the first time the period reaches
/// that level — block metadata referencing the previous period as parent.
pub fn period_end_events(slot: u64, first_seen: bool) -> (r: Vec<MockMessage>)
    requires
        slot >= 1,
    ensures
        r@.len() == if first_seen {
            2int
        } else {
            1int
        },
        r@[0] matches MockMessage::Slot(s) && s.slot == slot && s.commitment_level
            == CommitmentLevel::Processed,
        first_seen ==> (r@[1] matches MockMessage::BlockMeta(m) && m.slot == slot && m.parent_slot
            == slot - 1 && m.parent_blockhash@ == "nohash"@ && m.blockhash@ == "nohash"@
            && m.executed_transaction_count == 0 && m.entry_count == 0),
{
    let mut r: Vec<MockMessage> = Vec::new();
    r.push(
        MockMessage::Slot(MockSlot { slot, commitment_level: CommitmentLevel::Processed }),
    );
    if first_seen {
        r.push(
            MockMessage::BlockMeta(
                MockBlockMeta {
                    slot,
                    parent_slot: slot - 1,
                    parent_blockhash: String::from_str("nohash"),
                    blockhash: String::from_str("nohash"),
                    executed_transaction_count: 0,
                    entry_count: 0,
                },
            ),
        );
    }
    r
}

} // verus!
