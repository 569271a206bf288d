use mock_traffic::dispatch::{dispatch_decide, SinkCall};
use mock_traffic::events::{CommitmentLevel, MockAccount, MockMessage, MockSlot};
use tokio::sync::mpsc::error::TrySendError;

fn account(slot: u64, tag: u8) -> MockAccount {
    MockAccount {
        slot,
        pubkey: [tag; 32],
        lamports: 0,
        data: vec![tag],
        owner: [0; 32],
        executable: false,
        rent_epoch: 0,
    }
}

#[test]
fn events_reach_the_sink_in_enqueue_order() {
    let (tx, mut rx) = tokio::sync::mpsc::channel::<MockMessage>(10);
    for tag in 0..3u8 {
        tx.try_send(MockMessage::Account(account(100 + tag as u64, tag))).unwrap();
    }
    tx.try_send(MockMessage::Slot(MockSlot {
        slot: 103,
        commitment_level: CommitmentLevel::Processed,
    }))
    .unwrap();
    drop(tx);

    let mut observed: Vec<u64> = Vec::new();
    while let Some(msg) = rx.blocking_recv() {
        match dispatch_decide(msg) {
            SinkCall::UpdateAccount { slot, .. } => observed.push(slot),
            SinkCall::UpdateSlotStatus { slot, .. } => observed.push(slot),
            SinkCall::NotifyBlockMeta { meta } => observed.push(meta.slot),
        }
    }
    assert_eq!(observed, vec![100, 101, 102, 103]);
}

#[test]
fn bounded_channel_applies_backpressure_at_capacity() {
    let (tx, mut rx) = tokio::sync::mpsc::channel::<MockMessage>(10);
    for tag in 0..10u8 {
        tx.try_send(MockMessage::Account(account(tag as u64, tag))).unwrap();
    }
    match tx.try_send(MockMessage::Account(account(10, 10))) {
        Err(TrySendError::Full(_)) => {}
        _ => panic!("an eleventh send into a channel of capacity ten must block"),
    }
    let first = rx.blocking_recv().unwrap();
    match first {
        MockMessage::Account(a) => assert_eq!(a.slot, 0),
        _ => panic!("the drained message must be the first enqueued account"),
    }
    tx.try_send(MockMessage::Account(account(10, 10))).unwrap();
}
