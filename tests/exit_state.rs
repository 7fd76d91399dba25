use wasm_shim::exit::{ExitState, ExitStatus, Timestamp};

fn status(code: u32, secs: i64) -> ExitStatus {
    ExitStatus { code, at: Timestamp { secs, nanos: 0 } }
}

#[test]
fn first_publication_wins() {
    let mut s = ExitState::new();
    assert_eq!(s.published(), None);
    assert!(s.publish(status(0, 10)));
    assert!(!s.publish(status(1, 20)));
    assert_eq!(s.published(), Some(status(0, 10)));
}

#[test]
fn waiters_before_and_after_agree() {
    let mut s = ExitState::new();
    let before = s.published();
    assert_eq!(before, None);
    s.publish(status(3, 99));
    let mut seen = Vec::new();
    for k in 0..10 {
        if k == 5 {
            s.publish(status(4, 100));
        }
        seen.push(s.published());
    }
    assert!(seen.iter().all(|v| *v == Some(status(3, 99))));
}

