use mpsc_channel::ChannelError;
use std::sync::{Mutex, PoisonError, TryLockError};

#[test]
fn held_lock_reports_recv_blocked() {
    let lock = Mutex::new(0u8);
    let held = lock.lock().unwrap();
    let failure = match lock.try_lock() {
        Ok(_) => panic!("the lock is held"),
        Err(failure) => failure,
    };
    assert_eq!(ChannelError::from_try_lock(failure), ChannelError::RecvBlocked);
    assert_eq!(*held, 0);
}

#[test]
fn would_block_reports_recv_blocked() {
    let failure: TryLockError<()> = TryLockError::WouldBlock;
    assert_eq!(ChannelError::from_try_lock(failure), ChannelError::RecvBlocked);
}

#[test]
fn poisoned_lock_reports_corrupted() {
    let failure = TryLockError::Poisoned(PoisonError::new(()));
    assert_eq!(ChannelError::from_try_lock(failure), ChannelError::Corrupted);
}

#[test]
fn errors_are_told_apart() {
    let all = [
        ChannelError::ChannelClosed,
        ChannelError::ChannelEmpty,
        ChannelError::RecvBlocked,
        ChannelError::Corrupted,
    ];
    for (i, a) in all.iter().enumerate() {
        for (j, b) in all.iter().enumerate() {
            assert_eq!(a == b, i == j);
        }
    }
}
