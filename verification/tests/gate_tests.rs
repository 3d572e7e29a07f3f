use nitrous::gate::Gate;

#[test]
fn gate_admits_up_to_capacity() {
    let mut gate = Gate::new(2);
    assert!(gate.try_acquire());
    assert!(gate.try_acquire());
    assert!(!gate.try_acquire());
    assert!(!gate.try_acquire());
}

#[test]
fn gate_frees_slot_on_release() {
    let mut gate = Gate::new(1);
    assert!(gate.try_acquire());
    assert!(!gate.try_acquire());
    gate.release();
    assert!(gate.try_acquire());
    assert!(!gate.try_acquire());
}

#[test]
fn gate_of_capacity_ten() {
    let mut gate = Gate::new(10);
    for _ in 0..10 {
        assert!(gate.try_acquire());
    }
    assert!(!gate.try_acquire());
    gate.release();
    gate.release();
    assert!(gate.try_acquire());
    assert!(gate.try_acquire());
    assert!(!gate.try_acquire());
}
