use kernel::{sync_send_outcome, KernelError, ServerError, ServerHandle, BLOCKING_NOT_ALLOWED, CAPACITY, POISONED_LOCK};
use tokio::sync::mpsc::error::TrySendError;

#[test]
fn handle_delivers_in_order() {
    let (handle, mut receiver, _) = ServerHandle::<u32>::open();
    for m in [1, 2, 3] {
        handle.sender.blocking_send(m).unwrap();
    }
    assert_eq!(receiver.try_recv().unwrap(), 1);
    assert_eq!(receiver.try_recv().unwrap(), 2);
    assert_eq!(receiver.try_recv().unwrap(), 3);
}

#[test]
fn channel_holds_thirty_two_before_pushing_back() {
    assert_eq!(CAPACITY, 32);
    let (handle, mut receiver, _) = ServerHandle::<u32>::open();
    assert_eq!(handle.sender.max_capacity(), 32);
    for m in 0..32 {
        handle.sender.blocking_send(m).unwrap();
    }
    assert!(matches!(handle.sender.try_send(32), Err(TrySendError::Full(32))));
    assert_eq!(receiver.try_recv().unwrap(), 0);
    handle.sender.blocking_send(32).unwrap();
    assert!(matches!(handle.sender.try_send(33), Err(TrySendError::Full(33))));
}

#[test]
fn blocking_send_outcomes() {
    assert!(sync_send_outcome(Some(Ok(()))).is_ok());
    let closed = sync_send_outcome(Some(Err("channel closed".to_string())));
    assert!(matches!(closed, Err(KernelError::ChannelError(ref t)) if t == "channel closed"));
    let refused = sync_send_outcome(None);
    assert!(matches!(refused, Err(KernelError::BlockingNotAllowed(ref t)) if t == BLOCKING_NOT_ALLOWED));
}

#[test]
fn handles_share_one_queue() {
    let (handle, mut receiver, _) = ServerHandle::<u32>::open();
    let other = ServerHandle::new(handle.sender.clone());
    handle.sender.blocking_send(1).unwrap();
    other.sender.blocking_send(2).unwrap();
    handle.sender.blocking_send(3).unwrap();
    drop(handle);
    drop(other);
    assert_eq!(receiver.blocking_recv(), Some(1));
    assert_eq!(receiver.blocking_recv(), Some(2));
    assert_eq!(receiver.blocking_recv(), Some(3));
    assert_eq!(receiver.blocking_recv(), None);
}

#[test]
fn server_error_into_kernel_error() {
    let e = KernelError::from(ServerError::ClientError("refused".to_string()));
    assert!(matches!(e, KernelError::Server(ServerError::ClientError(ref t)) if t == "refused"));
}

#[test]
fn poisoned_lock_is_runtime_error() {
    let e = ServerError::from(std::sync::PoisonError::new(5u8));
    assert!(matches!(e, ServerError::RuntimeError(ref t) if t == POISONED_LOCK && t == "poisoned lock: another task failed inside"));
}

#[test]
fn ssh_failure_is_client_error() {
    let e = ServerError::from(russh::Error::KexInit);
    assert!(matches!(e, ServerError::ClientError(ref t) if t == "Key exchange init failed"));
}

