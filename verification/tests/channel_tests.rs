use rusty_chat::channel::{OutboundChannel, DEFAULT_CHANNEL_CAPACITY};
use rusty_chat::message::{BroadcastMessage, BroadcastMessageType, Timestamp};

fn text(n: u32) -> BroadcastMessage {
    BroadcastMessage {
        room_id: 1,
        sender_id: 2,
        content: format!("m{}", n),
        message_type: BroadcastMessageType::Text,
        timestamp: Timestamp { secs: n as i64, nanos: 0 },
    }
}

fn drain(channel: &mut OutboundChannel) -> Vec<BroadcastMessage> {
    let mut out = Vec::new();
    while let Some(m) = channel.pop() {
        out.push(m);
    }
    out
}

#[test]
fn default_capacity_is_one_hundred() {
    assert_eq!(DEFAULT_CHANNEL_CAPACITY, 100);
}

#[test]
fn new_channel_is_empty() {
    let mut channel = OutboundChannel::new(3);
    assert_eq!(channel.capacity(), 3);
    assert_eq!(channel.len(), 0);
    assert!(channel.is_empty());
    assert_eq!(channel.pop(), None);
}

#[test]
fn messages_come_out_in_the_order_they_went_in() {
    let mut channel = OutboundChannel::new(4);
    channel.push(text(1));
    channel.push(text(2));
    channel.push(text(3));
    assert_eq!(channel.len(), 3);
    assert_eq!(drain(&mut channel), vec![text(1), text(2), text(3)]);
    assert!(channel.is_empty());
}

#[test]
fn one_more_than_capacity_drops_the_oldest() {
    let capacity = 5;
    let mut channel = OutboundChannel::new(capacity);
    for n in 0..(capacity as u32 + 1) {
        channel.push(text(n));
    }
    assert_eq!(channel.len(), capacity);
    let expected: Vec<BroadcastMessage> = (1..=capacity as u32).map(text).collect();
    assert_eq!(drain(&mut channel), expected);
}

#[test]
fn default_capacity_keeps_exactly_the_newest_hundred() {
    let mut channel = OutboundChannel::new(DEFAULT_CHANNEL_CAPACITY);
    for n in 0..101 {
        channel.push(text(n));
    }
    assert_eq!(channel.len(), 100);
    let got = drain(&mut channel);
    assert_eq!(got.len(), 100);
    assert_eq!(got[0], text(1));
    assert_eq!(got[99], text(100));
}

#[test]
fn many_more_than_capacity_keeps_the_newest() {
    let mut channel = OutboundChannel::new(2);
    for n in 0..10 {
        channel.push(text(n));
    }
    assert_eq!(drain(&mut channel), vec![text(8), text(9)]);
}

#[test]
fn taking_out_makes_room_again() {
    let mut channel = OutboundChannel::new(2);
    channel.push(text(1));
    channel.push(text(2));
    assert_eq!(channel.pop(), Some(text(1)));
    channel.push(text(3));
    assert_eq!(drain(&mut channel), vec![text(2), text(3)]);
}

#[test]
fn channel_of_capacity_one_holds_the_last_message() {
    let mut channel = OutboundChannel::new(1);
    channel.push(text(1));
    channel.push(text(2));
    assert_eq!(drain(&mut channel), vec![text(2)]);
}

#[test]
fn channel_of_capacity_zero_holds_nothing() {
    let mut channel = OutboundChannel::new(0);
    channel.push(text(1));
    assert_eq!(channel.len(), 0);
    assert_eq!(channel.pop(), None);
}
