use mpsc_channel::shared_state::channel;
use mpsc_channel::ChannelError;

#[test]
fn shared_state_test_channel_creation() {
    let (_tx, _rx) = channel::<i32>();
}

#[test]
fn shared_state_test_send_and_recv() {
    let (tx, rx) = channel::<usize>();
    tx.send(10).unwrap();
    assert_eq!(rx.recv().unwrap(), 10);
}

#[test]
fn shared_state_test_multiple_send_and_recv() {
    let (tx, rx) = channel::<usize>();
    tx.send(10).unwrap();
    tx.send(11).unwrap();
    tx.send(12).unwrap();
    tx.send(13).unwrap();
    assert_eq!(rx.recv().unwrap(), 10);
    assert_eq!(rx.recv().unwrap(), 11);
    assert_eq!(rx.recv().unwrap(), 12);
    assert_eq!(rx.recv().unwrap(), 13);
}

#[test]
fn shared_state_test_send_and_try_recv() {
    let (tx, rx) = channel();
    tx.send(42).unwrap();
    assert_eq!(rx.try_recv().unwrap(), 42);
    assert!(matches!(rx.try_recv(), Err(ChannelError::ChannelEmpty)));
}

#[test]
fn shared_state_test_send_after_close() {
    let (mut tx, rx) = channel::<i32>();
    tx.close().unwrap();
    assert!(matches!(tx.send(42), Err(ChannelError::ChannelClosed)));
    assert!(matches!(rx.recv(), Err(ChannelError::ChannelClosed)));
}
