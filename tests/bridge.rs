use bevy_crossbeam_event::{
    new_channel, send_policy, CrossbeamEventSender, DrainReport, QueueFull, RecvFailure,
    SendFailure, SendStatus,
};

#[derive(Clone, Copy, Debug, PartialEq, Eq)]
struct Ping {
    id: u32,
}

#[derive(Clone, Copy, Debug, PartialEq, Eq)]
struct Alert {
    code: u32,
}

#[test]
fn single_producer_order_is_kept() {
    let (sender, receiver) = new_channel::<u32>();
    for v in [5u32, 1, 4, 1, 3] {
        assert_eq!(sender.send(v), Ok(SendStatus::Enqueued));
    }
    let report = receiver.drain();
    assert_eq!(report.messages, vec![5, 1, 4, 1, 3]);
    assert!(!report.senders_gone);
}

#[test]
fn each_producer_order_is_kept() {
    let (first, receiver) = new_channel::<(u32, u32)>();
    let second: CrossbeamEventSender<(u32, u32)> = first.clone();
    let third = second.clone();
    let plan: [(usize, u32); 9] =
        [(0, 0), (1, 0), (1, 1), (2, 0), (0, 1), (2, 1), (1, 2), (0, 2), (2, 2)];
    for (p, n) in plan {
        let handle = match p {
            0 => &first,
            1 => &second,
            _ => &third,
        };
        assert_eq!(handle.send((p as u32, n)), Ok(SendStatus::Enqueued));
    }
    let report = receiver.drain();
    assert_eq!(report.messages.len(), 9);
    for p in 0u32..3 {
        let own: Vec<u32> = report
            .messages
            .iter()
            .filter(|m| m.0 == p)
            .map(|m| m.1)
            .collect();
        assert_eq!(own, vec![0, 1, 2]);
    }
}

#[test]
fn second_drain_forwards_nothing() {
    let (sender, receiver) = new_channel::<u32>();
    sender.send(1).unwrap();
    sender.send(2).unwrap();
    assert_eq!(receiver.drain().messages, vec![1, 2]);
    let again = receiver.drain();
    assert!(again.messages.is_empty());
    assert!(!again.senders_gone);
}

#[test]
fn drain_of_untouched_channel_is_empty() {
    let (_sender, receiver) = new_channel::<u32>();
    let report = receiver.drain();
    assert!(report.messages.is_empty());
    assert!(!report.senders_gone);
}

#[test]
fn send_without_receiver_is_dropped_quietly() {
    let (sender, receiver) = new_channel::<u32>();
    drop(receiver);
    assert_eq!(sender.send(9), Ok(SendStatus::ReceiverGone));
    assert_eq!(sender.clone().send(10), Ok(SendStatus::ReceiverGone));
}

#[test]
fn full_queue_is_fatal() {
    assert_eq!(send_policy(Err(SendFailure::Full(3u32))), Err(QueueFull));
}

#[test]
fn send_policy_maps_each_outcome() {
    assert_eq!(send_policy::<u32>(Ok(())), Ok(SendStatus::Enqueued));
    assert_eq!(
        send_policy(Err(SendFailure::Disconnected(8u32))),
        Ok(SendStatus::ReceiverGone)
    );
}

#[test]
fn drain_keeps_its_channel_after_handles_are_dropped() {
    let (sender, receiver) = new_channel::<u32>();
    sender.send(11).unwrap();
    sender.send(12).unwrap();
    drop(sender);
    let report = receiver.drain();
    assert_eq!(report.messages, vec![11, 12]);
    assert!(!report.senders_gone);
    let again = receiver.drain();
    assert!(again.messages.is_empty());
    assert!(!again.senders_gone);
}

#[test]
fn clones_share_one_channel() {
    let (sender, receiver) = new_channel::<u32>();
    let other = sender.clone();
    drop(sender);
    other.send(21).unwrap();
    let report = receiver.drain();
    assert_eq!(report.messages, vec![21]);
    assert!(!report.senders_gone);
}

#[test]
fn absorb_keeps_messages_and_stops_on_empty() {
    let mut report: DrainReport<u32> = DrainReport::new();
    assert!(!report.absorb(Ok(4)));
    assert!(!report.absorb(Ok(2)));
    assert!(report.absorb(Err(RecvFailure::Empty)));
    assert_eq!(report.messages, vec![4, 2]);
    assert!(!report.senders_gone);
}

#[test]
fn absorb_records_disconnection() {
    let mut report: DrainReport<u32> = DrainReport::new();
    assert!(!report.absorb(Ok(6)));
    assert!(report.absorb(Err(RecvFailure::Disconnected)));
    assert_eq!(report.messages, vec![6]);
    assert!(report.senders_gone);
}

#[test]
fn buffered_ping_scenario() {
    let (sender, receiver) = new_channel::<Ping>();
    let producer = sender.clone();
    producer.send(Ping { id: 1 }).unwrap();
    producer.send(Ping { id: 2 }).unwrap();
    let mut stream: Vec<Ping> = Vec::new();
    stream.extend(receiver.drain().messages);
    assert_eq!(stream, vec![Ping { id: 1 }, Ping { id: 2 }]);
    let next_tick = receiver.drain();
    assert!(next_tick.messages.is_empty());
    drop(sender);
}

#[test]
fn immediate_alert_scenario() {
    let (sender, receiver) = new_channel::<Alert>();
    let producer = sender.clone();
    producer.send(Alert { code: 7 }).unwrap();
    let mut recorded: Vec<u32> = Vec::new();
    let mut handler = |a: Alert| recorded.push(a.code);
    let report = receiver.drain();
    assert!(!report.senders_gone);
    for a in report.messages {
        handler(a);
    }
    assert_eq!(recorded, vec![7]);
}
