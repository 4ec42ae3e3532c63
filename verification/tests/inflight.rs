use gcp_gcs::inflight::InFlight;

#[test]
fn counter_never_passes_its_limit() {
    let mut gate = InFlight::new(2);
    assert_eq!(gate.limit(), 2);
    assert_eq!(gate.in_flight(), 0);
    assert_eq!(gate.available(), 2);
    assert!(gate.try_acquire());
    assert!(gate.try_acquire());
    assert!(!gate.try_acquire());
    assert_eq!(gate.in_flight(), 2);
    assert_eq!(gate.available(), 0);
    assert!(gate.release());
    assert_eq!(gate.in_flight(), 1);
    assert!(gate.try_acquire());
    assert!(!gate.try_acquire());
}

#[test]
fn release_of_an_empty_counter_does_nothing() {
    let mut gate = InFlight::new(1);
    assert!(!gate.release());
    assert_eq!(gate.in_flight(), 0);
    assert!(gate.try_acquire());
    assert!(gate.release());
    assert!(!gate.release());
}

#[test]
fn limit_of_zero_admits_nothing() {
    let mut gate = InFlight::new(0);
    assert!(!gate.try_acquire());
    assert_eq!(gate.available(), 0);
}
