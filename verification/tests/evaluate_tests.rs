use btc_alert::evaluate::evaluate;

#[test]
fn below_threshold_triggers() {
    let d = evaluate(6500000, 7000000);
    assert!(d.triggered);
    assert_eq!(d.observed_cents, 6500000);
}

#[test]
fn above_threshold_does_not_trigger() {
    let d = evaluate(7500000, 7000000);
    assert!(!d.triggered);
    assert_eq!(d.observed_cents, 7500000);
}

#[test]
fn equal_to_threshold_does_not_trigger() {
    let d = evaluate(7000000, 7000000);
    assert!(!d.triggered);
    assert_eq!(d.observed_cents, 7000000);
}

#[test]
fn zero_price_triggers_against_positive_threshold() {
    let d = evaluate(0, 1);
    assert!(d.triggered);
}

#[test]
fn zero_threshold_never_triggers() {
    let d = evaluate(0, 0);
    assert!(!d.triggered);
}
