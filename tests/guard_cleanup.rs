use map_in_place::{Progress, Slot};

#[test]
fn failure_on_third_value_drops_produced_then_tail() {
    let mut p = Progress::new(4);
    p.take();
    p.put();
    p.take();
    p.put();
    // the conversion of the value at index 2 fails
    p.take();
    assert!(!p.is_finished());
    assert_eq!(p.cleanup_order(), vec![Slot::Produced(0), Slot::Produced(1), Slot::Pending(3)]);
}

#[test]
fn failure_on_first_value_drops_only_tail() {
    let mut p = Progress::new(3);
    p.take();
    assert_eq!(p.cleanup_order(), vec![Slot::Pending(1), Slot::Pending(2)]);
}

#[test]
fn failure_on_last_value_drops_only_produced() {
    let mut p = Progress::new(2);
    p.take();
    p.put();
    p.take();
    assert_eq!(p.cleanup_order(), vec![Slot::Produced(0)]);
}

#[test]
fn untouched_guard_drops_every_source_value() {
    let p = Progress::new(3);
    assert_eq!(p.cleanup_order(), vec![Slot::Pending(0), Slot::Pending(1), Slot::Pending(2)]);
}

#[test]
fn finished_guard_is_disarmed() {
    let mut p = Progress::new(2);
    p.take();
    p.put();
    p.take();
    p.put();
    assert!(p.is_finished());
    assert_eq!(p.cleanup_order(), Vec::<Slot>::new());
    assert!(Progress::new(0).is_finished());
}
