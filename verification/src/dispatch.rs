//! Dispatch-loop decisions: the mapping from one dequeued message to the
//! sink call it becomes, and the debounced high-water-mark check behind the
//! queue-depth diagnostic. The blocking receive loop itself lives outside
//! the library; it performs the returned call against the sink and treats
//! any sink error as fatal.

use vstd::prelude::*;
use crate::debounce::{debounce_fires, debounce_next, Debouncer};
use crate::events::{CommitmentLevel, MockAccount, MockBlockMeta, MockMessage};
use crate::generator::ACCOUNT_WRITE_VERSION;

verus! {

/// Queue depth above which the dispatch loop considers emitting the
/// debounced diagnostic log.
pub const QUEUE_DEPTH_HIGH_WATER: usize = 100;

/// One call against the sink contract.
pub enum SinkCall {
    UpdateAccount { account: MockAccount, slot: u64, is_startup: bool, write_version: u64 },
    UpdateSlotStatus { slot: u64, parent_slot: Option<u64>, commitment_level: CommitmentLevel },
    NotifyBlockMeta { meta: MockBlockMeta },
}

/// Maps one dequeued message to the sink call that forwards it: an account
/// update keeps its payload and propagates its period id as the sink's slot,
/// a slot-status transition passes no parent, and block metadata passes
/// through unchanged. One message, one call, in order.
pub fn dispatch_decide(msg: MockMessage) -> (r: SinkCall)
    ensures
        msg matches MockMessage::Account(a) ==> (r matches SinkCall::UpdateAccount {
            account,
            slot,
            is_startup,
            write_version,
        } && account == a && slot == a.slot && is_startup == false && write_version
            == ACCOUNT_WRITE_VERSION),
        msg matches MockMessage::Slot(s) ==> (r matches SinkCall::UpdateSlotStatus {
            slot,
            parent_slot,
            commitment_level,
        } && slot == s.slot && parent_slot is None && commitment_level == s.commitment_level),
        msg matches MockMessage::BlockMeta(m) ==> (r matches SinkCall::NotifyBlockMeta { meta }
            && meta == m),
{
    match msg {
        MockMessage::Account(account) => {
            let slot = account.slot;
            SinkCall::UpdateAccount {
                account,
                slot,
                is_startup: false,
                write_version: ACCOUNT_WRITE_VERSION,
            }
        },
        MockMessage::Slot(s) => SinkCall::UpdateSlotStatus {
            slot: s.slot,
            parent_slot: Option::None,
            commitment_level: s.commitment_level,
        },
        MockMessage::BlockMeta(meta) => SinkCall::NotifyBlockMeta { meta },
    }
}

/// Decides whether the dispatch loop emits its queue-depth diagnostic:
/// only when the queued depth exceeds the high-water mark and the debouncer
/// approves. The debouncer is consulted — and its timestamp advanced — only
/// above the mark, so a quiet queue never consumes a firing.
pub fn should_log_queue_depth(
    queue_depth: usize,
    debouncer: &mut Debouncer,
    now_micros: u64,
) -> (r: bool)
    ensures
        r == (queue_depth > QUEUE_DEPTH_HIGH_WATER && debounce_fires(
            old(debouncer).min_interval(),
            old(debouncer).last_fired(),
            now_micros,
        )),
        final(debouncer).min_interval() == old(debouncer).min_interval(),
        queue_depth > QUEUE_DEPTH_HIGH_WATER ==> final(debouncer).last_fired() == debounce_next(
            old(debouncer).min_interval(),
            old(debouncer).last_fired(),
            now_micros,
        ),
        queue_depth <= QUEUE_DEPTH_HIGH_WATER ==> final(debouncer).last_fired() == old(
            debouncer,
        ).last_fired(),
{
    if queue_depth > QUEUE_DEPTH_HIGH_WATER {
        debouncer.can_fire(now_micros)
    } else {
        false
    }
}

} // verus!
