use rcc::label_tracker::{LabelKind, LabelTracker};

#[test]
fn label_tracker_create() {
    let mut tracker = LabelTracker::new();
    let label = tracker.create(LabelKind::Or);
    assert_eq!(label, "or_0");
    let label = tracker.create(LabelKind::OrShortCircuit);
    assert_eq!(label, "or_ss_0");
    let label = tracker.create(LabelKind::And);
    assert_eq!(label, "and_0");
    let label = tracker.create(LabelKind::AndShortCircuit);
    assert_eq!(label, "and_ss_0");
    let label = tracker.create(LabelKind::TernaryElse);
    assert_eq!(label, "cond_else_0");
    let label = tracker.create(LabelKind::TernaryEnd);
    assert_eq!(label, "cond_end_0");
    let label = tracker.create(LabelKind::IfElse);
    assert_eq!(label, "if_else_0");
    let label = tracker.create(LabelKind::IfEnd);
    assert_eq!(label, "if_end_0");
}

#[test]
fn label_tracker_index() {
    let tracker = LabelTracker::new();
    assert_eq!(tracker.index(LabelKind::Or), 0);
    assert_eq!(tracker.index(LabelKind::OrShortCircuit), 0);
    assert_eq!(tracker.index(LabelKind::And), 0);
    assert_eq!(tracker.index(LabelKind::AndShortCircuit), 0);
    assert_eq!(tracker.index(LabelKind::TernaryElse), 0);
    assert_eq!(tracker.index(LabelKind::TernaryEnd), 0);
    assert_eq!(tracker.index(LabelKind::IfElse), 0);
    assert_eq!(tracker.index(LabelKind::IfEnd), 0);
}

#[test]
fn label_tracker_increment() {
    let mut tracker = LabelTracker::new();
    tracker.increment(LabelKind::Or);
    assert_eq!(tracker.index(LabelKind::Or), 1);
    tracker.increment(LabelKind::OrShortCircuit);
    assert_eq!(tracker.index(LabelKind::OrShortCircuit), 1);
    tracker.increment(LabelKind::And);
    assert_eq!(tracker.index(LabelKind::And), 1);
    tracker.increment(LabelKind::AndShortCircuit);
    assert_eq!(tracker.index(LabelKind::AndShortCircuit), 1);
    tracker.increment(LabelKind::TernaryElse);
    assert_eq!(tracker.index(LabelKind::TernaryElse), 1);
    tracker.increment(LabelKind::TernaryEnd);
    assert_eq!(tracker.index(LabelKind::TernaryEnd), 1);
    tracker.increment(LabelKind::IfElse);
    assert_eq!(tracker.index(LabelKind::IfElse), 1);
    tracker.increment(LabelKind::IfEnd);
    assert_eq!(tracker.index(LabelKind::IfEnd), 1);
}

#[test]
fn label_uniqueness_many() {
    // Minting any number of labels, of any mix of kinds, never repeats a
    // label text.
    let mut tracker = LabelTracker::new();
    let kinds = [
        LabelKind::Or,
        LabelKind::OrShortCircuit,
        LabelKind::And,
        LabelKind::AndShortCircuit,
        LabelKind::TernaryElse,
        LabelKind::TernaryEnd,
        LabelKind::IfElse,
        LabelKind::IfEnd,
    ];
    let mut seen: Vec<String> = Vec::new();
    for round in 0..25 {
        let kind = kinds[round % kinds.len()];
        let label = tracker.create(kind);
        assert!(!seen.contains(&label), "label {} repeated", label);
        seen.push(label);
    }
    assert_eq!(seen.len(), 25);
}
