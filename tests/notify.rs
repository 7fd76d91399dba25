use wasm_shim::exit::{ExitStatus, Timestamp};
use wasm_shim::notify::ExitNotifier;

fn status(code: u32) -> ExitStatus {
    ExitStatus { code, at: Timestamp { secs: 42, nanos: 7 } }
}

#[test]
fn ten_waiters_get_identical_tuple() {
    let mut n = ExitNotifier::new();
    for id in 0..10u64 {
        assert_eq!(n.register(id), None);
    }
    let delivered = n.publish(status(0)).unwrap();
    assert_eq!(delivered.len(), 10);
    for (k, (id, st)) in delivered.iter().enumerate() {
        assert_eq!(*id, k as u64);
        assert_eq!(*st, status(0));
    }
}

#[test]
fn late_waiter_gets_published_status() {
    let mut n = ExitNotifier::new();
    assert_eq!(n.register(1), None);
    assert!(n.publish(status(3)).is_some());
    assert_eq!(n.register(2), Some(status(3)));
    assert_eq!(n.published(), Some(status(3)));
}

#[test]
fn second_publication_delivers_nothing() {
    let mut n = ExitNotifier::new();
    assert_eq!(n.publish(status(1)), Some(Vec::new()));
    assert_eq!(n.register(5), Some(status(1)));
    assert_eq!(n.publish(status(2)), None);
    assert_eq!(n.published(), Some(status(1)));
}
