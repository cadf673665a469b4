use evac::activity::Activities;
use evac::ids::Uuid;

fn id(v: u128) -> Uuid {
    Uuid { value: v }
}

#[test]
fn best_of_missing_device_is_none() {
    let acts = Activities::new();
    assert!(acts.best(id(1)).is_none());
}

#[test]
fn best_picks_maximum_signal() {
    let mut acts = Activities::new();
    let d = id(1);
    acts.push(d, id(10), 1_000, -70);
    acts.push(d, id(11), 1_100, -50);
    acts.push(d, id(12), 1_200, -60);
    let best = acts.best(d).expect("some activity");
    assert_eq!(best.scanner_uuid, id(11));
    assert_eq!(best.irssi, -50);
}

#[test]
fn best_tie_goes_to_first_inserted() {
    let mut acts = Activities::new();
    let d = id(1);
    acts.push(d, id(10), 1_000, -50);
    acts.push(d, id(11), 1_100, -50);
    let best = acts.best(d).expect("some activity");
    assert_eq!(best.scanner_uuid, id(10));
}

#[test]
fn push_true_on_first_observation() {
    let mut acts = Activities::new();
    assert!(acts.push(id(1), id(10), 1_000, -50));
}

#[test]
fn push_false_on_quick_repeat_from_best_scanner() {
    let mut acts = Activities::new();
    let d = id(1);
    acts.push(d, id(10), 1_000, -50);
    // Same best scanner, 500 ms later: within the one-second debounce.
    assert!(!acts.push(d, id(10), 1_500, -50));
}

#[test]
fn push_true_on_best_scanner_change() {
    let mut acts = Activities::new();
    let d = id(1);
    assert!(acts.push(d, id(10), 1_000, -50));
    assert!(acts.push(d, id(11), 1_400, -40));
    let best = acts.best(d).expect("some activity");
    assert_eq!(best.scanner_uuid, id(11));
}

#[test]
fn push_true_on_timestamp_jump() {
    let mut acts = Activities::new();
    let d = id(1);
    acts.push(d, id(10), 1_000, -50);
    // Same scanner stays best, but the best timestamp moved by over 1 s.
    assert!(acts.push(d, id(10), 4_000, -50));
}

#[test]
fn push_overwrites_same_scanner_entry() {
    let mut acts = Activities::new();
    let d = id(1);
    acts.push(d, id(10), 1_000, -50);
    acts.push(d, id(10), 9_000, -80);
    let best = acts.best(d).expect("some activity");
    assert_eq!(best.irssi, -80);
    assert_eq!(best.timestamp, 9_000);
}

#[test]
fn clear_drops_old_entries_and_empty_devices() {
    let mut acts = Activities::new();
    let d1 = id(1);
    let d2 = id(2);
    acts.push(d1, id(10), 1_000, -50);
    acts.push(d2, id(10), 90_000, -50);
    acts.push(d2, id(11), 1_000, -60);
    // At t = 100 s with a 15 s threshold, entries stamped 1 s are dropped.
    acts.clear(100_000, 15);
    assert!(acts.best(d1).is_none());
    let best = acts.best(d2).expect("recent activity survives");
    assert_eq!(best.scanner_uuid, id(10));
}

#[test]
fn clear_keeps_everything_fresh() {
    let mut acts = Activities::new();
    let d = id(1);
    acts.push(d, id(10), 99_000, -50);
    acts.clear(100_000, 15);
    assert!(acts.best(d).is_some());
}

#[test]
fn scenario_best_switches_to_stronger_scanner() {
    // A device reports -50 through one scanner, then -40 through another
    // within a second: the best switches and both observations signal a
    // change.
    let mut acts = Activities::new();
    let device = id(9);
    let scanner_a = id(100);
    let scanner_b = id(200);
    assert!(acts.push(device, scanner_a, 10_000, -50));
    assert!(acts.push(device, scanner_b, 10_400, -40));
    let best = acts.best(device).expect("tracked");
    assert_eq!(best.scanner_uuid, scanner_b);
}
