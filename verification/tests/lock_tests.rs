use spinstack::lock::Lock;

#[test]
fn new_lock_keeps_its_initial_state() {
    let mut raised = Lock::new(true);
    assert!(raised.is_true());
    let mut lowered = Lock::new(false);
    assert!(!lowered.is_true());
}

#[test]
fn consume_succeeds_at_most_once() {
    let mut lock = Lock::new(true);
    assert!(lock.is_true());
    assert!(!lock.is_true());
    assert!(!lock.is_true());
}

#[test]
fn handshake_cycle_raises_and_consumes() {
    let mut lock = Lock::new(false);
    lock.set_true();
    assert!(lock.is_true());
    lock.set_true();
    lock.wait_for_true();
    assert!(!lock.is_true());
    lock.set_true();
    lock.set_false();
    assert!(!lock.is_true());
}
