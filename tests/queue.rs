use embassy_sync::blocking_mutex::raw::NoopRawMutex;
use embassy_sync::channel::{Channel, TrySendError};
use procon::Session;

const CAPACITY: usize = 10;

#[test]
fn full_queue_refuses_without_dropping_and_keeps_order() {
    let channel: Channel<NoopRawMutex, [u8; 64], CAPACITY> = Channel::new();
    let mut session = Session::new();
    for _ in 0..CAPACITY {
        assert!(channel.try_send(session.periodic_report()).is_ok());
    }
    let extra = session.periodic_report();
    match channel.try_send(extra) {
        Err(TrySendError::Full(back)) => assert_eq!(back, extra),
        other => panic!("a full queue accepted a frame: {:?}", other.is_ok()),
    }
    let first = channel.try_receive().unwrap();
    assert_eq!(first[1], 1);
    assert!(channel.try_send(extra).is_ok());
    let mut timers = vec![];
    while let Ok(frame) = channel.try_receive() {
        timers.push(frame[1]);
    }
    assert_eq!(timers, (2..=11).collect::<Vec<u8>>());
}

