//! The three handoff channels: single-slot overwrite, FIFO command queue,
//! and the one-shot transfer.

use gfaestus::channel::CommandQueue;
use gfaestus::channel::LatestValueChannel;
use gfaestus::channel::OneShotChannel;
use gfaestus::channel::OneShotRecv;

#[test]
fn burst_of_publishes_leaves_only_the_most_recent_value() {
    let mut slot: LatestValueChannel<u32> = LatestValueChannel::new();
    assert!(slot.is_empty());
    for v in 0..100u32 {
        slot.publish(v);
    }
    // The slow consumer sees exactly the last published value, never an
    // intermediate one, and afterwards nothing.
    assert_eq!(slot.take(), Some(99));
    assert_eq!(slot.take(), None);
    assert!(slot.is_empty());
}

#[test]
fn publish_overwrites_an_unread_value() {
    let mut slot: LatestValueChannel<&str> = LatestValueChannel::new();
    slot.publish("stale");
    slot.publish("fresh");
    assert_eq!(slot.take(), Some("fresh"));
}

#[test]
fn command_queue_drains_in_enqueue_order() {
    let mut queue: CommandQueue<u64> = CommandQueue::new();
    assert!(queue.is_empty());
    queue.push(1);
    queue.push(2);
    queue.push(2);
    queue.push(3);
    assert_eq!(queue.len(), 4);
    // No reordering and no coalescing: the duplicate stays.
    assert_eq!(queue.pop_front(), Some(1));
    assert_eq!(queue.pop_front(), Some(2));
    assert_eq!(queue.pop_front(), Some(2));
    assert_eq!(queue.pop_front(), Some(3));
    assert_eq!(queue.pop_front(), None);
}

#[test]
fn one_shot_delivers_exactly_once() {
    let mut chan: OneShotChannel<String> = OneShotChannel::new();
    assert_eq!(chan.try_recv(), OneShotRecv::Pending);
    chan.send("value".to_string());
    assert_eq!(chan.try_recv(), OneShotRecv::Value("value".to_string()));
}

#[test]
fn one_shot_cancellation_is_visible_forever() {
    let mut chan: OneShotChannel<u8> = OneShotChannel::new();
    chan.cancel();
    assert_eq!(chan.try_recv(), OneShotRecv::Canceled);
    assert_eq!(chan.try_recv(), OneShotRecv::Canceled);
}
