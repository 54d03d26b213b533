use smokey::hoarder::WpmHoarder;

#[test]
fn compaction_averages_moving_pairs() {
    let mut h = WpmHoarder::new(4);
    h.push(100);
    h.push(200);
    h.push(300);
    assert_eq!(h.wpms, vec![100, 200, 300]);
    assert_eq!(h.seconds, 1);
    h.push(400);
    assert_eq!(h.wpms, vec![150, 250]);
    assert_eq!(h.seconds, 2);
}

#[test]
fn series_stays_below_capacity() {
    let mut h = WpmHoarder::new(4);
    for i in 0..100u64 {
        h.push(i * 10);
        assert!(h.wpms.len() < h.capacity);
        assert!(h.seconds.is_power_of_two());
    }
}

#[test]
fn average_rounds_down() {
    let mut h = WpmHoarder::new(2);
    h.push(1);
    h.push(2);
    assert_eq!(h.wpms, vec![1]);
    assert_eq!(h.seconds, 2);
}

#[test]
fn capacity_one_empties_on_each_push() {
    let mut h = WpmHoarder::new(1);
    h.push(7);
    assert!(h.wpms.is_empty());
    assert_eq!(h.seconds, 2);
}

#[test]
fn reset_empties_and_restarts_interval() {
    let mut h = WpmHoarder::new(4);
    for v in [1u64, 2, 3, 4, 5] {
        h.push(v);
    }
    assert_eq!(h.seconds, 2);
    h.reset();
    assert!(h.wpms.is_empty());
    assert_eq!(h.seconds, 1);
    assert_eq!(h.capacity, 4);
}

#[test]
fn due_at_follows_interval_and_length() {
    let mut h = WpmHoarder::new(4);
    assert!(!h.due_at(0));
    assert!(h.due_at(1));
    h.push(10);
    assert!(!h.due_at(1));
    assert!(h.due_at(2));
    h.push(10);
    h.push(10);
    h.push(10);
    // two samples kept at a two-second interval: next due at 6
    assert!(!h.due_at(5));
    assert!(h.due_at(6));
}

#[test]
fn due_polling_is_repeatable() {
    let h = WpmHoarder::new(4);
    for _ in 0..5 {
        assert!(!h.due_at(0));
        assert!(h.due_at(3));
    }
}

#[test]
fn min_and_max_of_series() {
    let mut h = WpmHoarder::new(8);
    assert_eq!(h.get_min_and_max(), None);
    h.push(50);
    assert_eq!(h.get_min_and_max(), Some((50, 50)));
    h.push(20);
    h.push(90);
    h.push(60);
    assert_eq!(h.get_min_and_max(), Some((20, 90)));
}

#[test]
fn large_samples_do_not_overflow() {
    let mut h = WpmHoarder::new(2);
    h.push(u64::MAX);
    h.push(u64::MAX - 1);
    assert_eq!(h.wpms, vec![u64::MAX - 1]);
}
