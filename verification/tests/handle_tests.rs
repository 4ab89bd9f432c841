use mpsc_channel::{channel, ChannelError};

#[test]
fn fifo_over_many_items() {
    let (tx, rx) = channel::<u64>();
    for i in 0..500 {
        assert_eq!(tx.send(i * 3), Ok(()));
    }
    for i in 0..500 {
        assert_eq!(rx.recv(), Ok(i * 3));
    }
    assert_eq!(rx.try_recv(), Err(ChannelError::ChannelEmpty));
}

#[test]
fn two_senders_every_item_once() {
    let (tx_a, rx) = channel::<u32>();
    let tx_b = tx_a.clone();
    for i in 0..50 {
        assert_eq!(tx_a.send(i), Ok(()));
        assert_eq!(tx_b.send(50 + i), Ok(()));
    }
    let mut seen = vec![0u32; 100];
    let mut sum = 0;
    for _ in 0..100 {
        let item = rx.recv().unwrap();
        seen[item as usize] += 1;
        sum += item;
    }
    assert_eq!(sum, 4950);
    assert!(seen.iter().all(|&times| times == 1));
    assert_eq!(rx.try_recv(), Err(ChannelError::ChannelEmpty));
}

#[test]
fn interleaved_senders_keep_lock_order() {
    let (tx_a, rx) = channel::<&str>();
    let tx_b = tx_a.clone();
    tx_a.send("a1").unwrap();
    tx_b.send("b1").unwrap();
    assert_eq!(rx.recv(), Ok("a1"));
    tx_b.send("b2").unwrap();
    tx_a.send("a2").unwrap();
    assert_eq!(rx.recv(), Ok("b1"));
    assert_eq!(rx.recv(), Ok("b2"));
    assert_eq!(rx.recv(), Ok("a2"));
}

#[test]
fn send_after_close_leaves_queue_alone() {
    let (mut tx, rx) = channel::<i32>();
    tx.send(1).unwrap();
    tx.send(2).unwrap();
    tx.close().unwrap();
    assert_eq!(tx.send(3), Err(ChannelError::ChannelClosed));
    assert_eq!(tx.send(4), Err(ChannelError::ChannelClosed));
    assert_eq!(rx.recv(), Ok(1));
    assert_eq!(rx.recv(), Ok(2));
    assert_eq!(rx.recv(), Err(ChannelError::ChannelClosed));
}

#[test]
fn close_by_one_sender_closes_for_all() {
    let (mut tx, rx) = channel::<i32>();
    let other = tx.clone();
    tx.close().unwrap();
    assert_eq!(other.send(1), Err(ChannelError::ChannelClosed));
    assert_eq!(rx.try_recv(), Err(ChannelError::ChannelClosed));
}

#[test]
fn recv_drains_before_closed() {
    let (mut tx, rx) = channel::<u8>();
    for i in [10, 20, 30] {
        tx.send(i).unwrap();
    }
    tx.close().unwrap();
    assert_eq!(rx.recv(), Ok(10));
    assert_eq!(rx.recv(), Ok(20));
    assert_eq!(rx.recv(), Ok(30));
    assert_eq!(rx.recv(), Err(ChannelError::ChannelClosed));
    assert_eq!(rx.recv(), Err(ChannelError::ChannelClosed));
}

#[test]
fn try_recv_drains_before_closed() {
    let (mut tx, rx) = channel::<u8>();
    for i in [10, 20, 30] {
        tx.send(i).unwrap();
    }
    tx.close().unwrap();
    assert_eq!(rx.try_recv(), Ok(10));
    assert_eq!(rx.try_recv(), Ok(20));
    assert_eq!(rx.try_recv(), Ok(30));
    assert_eq!(rx.try_recv(), Err(ChannelError::ChannelClosed));
}

#[test]
fn try_recv_answers_in_every_state() {
    let (mut tx, rx) = channel::<char>();
    assert_eq!(rx.try_recv(), Err(ChannelError::ChannelEmpty));
    tx.send('x').unwrap();
    assert_eq!(rx.try_recv(), Ok('x'));
    assert_eq!(rx.try_recv(), Err(ChannelError::ChannelEmpty));
    tx.close().unwrap();
    assert_eq!(rx.try_recv(), Err(ChannelError::ChannelClosed));
}

#[test]
fn release_of_last_sender_closes_channel() {
    let (tx, rx) = channel::<i32>();
    tx.send(5).unwrap();
    tx.release();
    assert_eq!(rx.recv(), Ok(5));
    assert_eq!(rx.recv(), Err(ChannelError::ChannelClosed));
    assert_eq!(rx.try_recv(), Err(ChannelError::ChannelClosed));
}

#[test]
fn release_of_one_of_two_keeps_channel_open() {
    let (tx, rx) = channel::<i32>();
    let other = tx.clone();
    tx.release();
    assert_eq!(rx.try_recv(), Err(ChannelError::ChannelEmpty));
    assert_eq!(other.send(1), Ok(()));
    assert_eq!(rx.recv(), Ok(1));
    other.release();
    assert_eq!(rx.recv(), Err(ChannelError::ChannelClosed));
}

#[test]
fn clones_of_clones_are_counted() {
    let (tx, rx) = channel::<i32>();
    let second = tx.clone();
    let third = second.clone();
    tx.release();
    second.release();
    assert_eq!(rx.try_recv(), Err(ChannelError::ChannelEmpty));
    assert_eq!(third.send(8), Ok(()));
    third.release();
    assert_eq!(rx.recv(), Ok(8));
    assert_eq!(rx.recv(), Err(ChannelError::ChannelClosed));
}

#[test]
fn close_twice_is_close_once() {
    let (mut tx, rx) = channel::<i32>();
    tx.send(1).unwrap();
    assert_eq!(tx.close(), Ok(()));
    assert_eq!(tx.close(), Ok(()));
    assert_eq!(tx.close(), Ok(()));
    assert_eq!(rx.recv(), Ok(1));
    assert_eq!(rx.recv(), Err(ChannelError::ChannelClosed));
    assert_eq!(tx.send(2), Err(ChannelError::ChannelClosed));
}

#[test]
fn close_after_last_release_changes_nothing() {
    let (tx, rx) = channel::<i32>();
    let mut spare = tx.clone();
    tx.send(1).unwrap();
    tx.release();
    assert_eq!(rx.try_recv(), Ok(1));
    assert_eq!(rx.try_recv(), Err(ChannelError::ChannelEmpty));
    assert_eq!(spare.close(), Ok(()));
    assert_eq!(spare.close(), Ok(()));
    assert_eq!(rx.try_recv(), Err(ChannelError::ChannelClosed));
    spare.release();
    assert_eq!(rx.try_recv(), Err(ChannelError::ChannelClosed));
}

#[test]
fn rejected_item_is_dropped_once() {
    let (mut tx, rx) = channel::<std::rc::Rc<()>>();
    let token = std::rc::Rc::new(());
    tx.send(token.clone()).unwrap();
    assert_eq!(std::rc::Rc::strong_count(&token), 2);
    tx.close().unwrap();
    assert!(matches!(tx.send(token.clone()), Err(ChannelError::ChannelClosed)));
    assert_eq!(std::rc::Rc::strong_count(&token), 2);
    assert!(rx.recv().is_ok());
    assert_eq!(std::rc::Rc::strong_count(&token), 1);
}

#[test]
fn handles_move_to_other_threads() {
    fn is_send<S: Send>(_: &S) {}
    let (tx, rx) = channel::<String>();
    is_send(&tx);
    is_send(&rx);
}
