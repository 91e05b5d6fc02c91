use mini_redis::shutdown::{RecvAction, Shutdown};
use tokio::sync::broadcast;

#[test]
fn starts_without_signal() {
    let (_tx, rx) = broadcast::channel::<()>(1);
    let shutdown = Shutdown::new(rx);
    assert!(!shutdown.is_shutdown());
}

#[test]
fn remembers_the_signal() {
    let (tx, rx) = broadcast::channel::<()>(1);
    let mut shutdown = Shutdown::new(rx);
    tx.send(()).unwrap();
    assert!(shutdown.notifier().try_recv().is_ok());
    assert!(!shutdown.is_shutdown());
    shutdown.signal_received();
    assert!(shutdown.is_shutdown());
    assert!(shutdown.notifier().try_recv().is_err());
    assert!(shutdown.is_shutdown());
}

#[test]
fn receive_steps() {
    let (tx, rx) = broadcast::channel::<()>(1);
    let mut shutdown = Shutdown::new(rx);
    assert_eq!(shutdown.recv_begin(), RecvAction::Wait);
    tx.send(()).unwrap();
    assert!(shutdown.notifier().try_recv().is_ok());
    shutdown.signal_received();
    assert_eq!(shutdown.recv_begin(), RecvAction::Return);
    assert!(shutdown.is_shutdown());
}
