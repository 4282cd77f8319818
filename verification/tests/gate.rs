use easy_graph::gate::RateGate;

#[test]
fn gate_cadence_one_fire_per_interval() {
    // Target interval 1.0s in thousandths; calls at 0.0, 0.4, 0.9, 1.1, 1.6s.
    let mut gate = RateGate::new(Some(1000));
    assert!(gate.update(0));
    assert!(!gate.update(400));
    assert!(!gate.update(900));
    assert!(gate.update(1100));
    assert!(!gate.update(1600));
}

#[test]
fn gate_unthrottled_always_fires() {
    let mut gate = RateGate::new(None);
    assert!(gate.update(0));
    assert!(gate.update(0));
    assert!(gate.update(1));
}

#[test]
fn gate_first_call_always_fires() {
    let mut gate = RateGate::new(Some(1_000_000));
    assert!(gate.update(3));
    assert!(!gate.update(4));
}

#[test]
fn gate_rejected_call_leaves_state() {
    let mut gate = RateGate::new(Some(100));
    assert!(gate.update(50));
    // Rejections at 60 and 120 do not move the last fire time forward.
    assert!(!gate.update(60));
    assert!(!gate.update(120));
    assert!(gate.update(150));
}

#[test]
fn gate_set_rate_changes_throttle() {
    let mut gate = RateGate::new(Some(100));
    assert!(gate.update(0));
    gate.set_rate(Some(10));
    assert!(gate.update(10));
    gate.set_rate(None);
    assert!(gate.update(11));
}
