use gamecore::history::SpeedHistory;

#[test]
fn history_rejects_bad_parameters() {
    assert!(SpeedHistory::new(100, 0).is_none());
    assert!(SpeedHistory::new(4_000_000, 10).is_none());
    assert!(SpeedHistory::new(100, 1).is_some());
}

#[test]
fn samples_wait_for_the_interval() {
    let mut h = SpeedHistory::new(100, 8).unwrap();
    h.log(1_000, 50);
    assert!(h.samples.is_empty());
    assert_eq!(h.time_since_last, 50);
    h.log(1_000, 60);
    assert!(h.samples.is_empty());
    assert_eq!(h.time_since_last, 110);
    // Only now has more than one interval passed since the last sample.
    h.log(1_500, 10);
    assert_eq!(h.samples, vec![1_500]);
    assert_eq!(h.time_since_last, 0);
}

#[test]
fn capacity_drops_the_oldest_sample() {
    let mut h = SpeedHistory::new(0, 2).unwrap();
    h.log(1_000, 1);
    h.log(2_000, 0);
    h.log(1_000, 1);
    h.log(3_000, 0);
    assert_eq!(h.samples, vec![2_000, 3_000]);
    h.log(1_000, 1);
    h.log(4_000, 0);
    assert_eq!(h.samples, vec![3_000, 4_000]);
}

#[test]
fn exact_interval_does_not_sample_yet() {
    let mut h = SpeedHistory::new(100, 4).unwrap();
    h.log(1_000, 100);
    assert_eq!(h.time_since_last, 100);
    // time_since_last equals the interval: still accumulating.
    h.log(2_000, 0);
    assert!(h.samples.is_empty());
    h.log(3_000, 1);
    assert_eq!(h.time_since_last, 101);
    h.log(4_000, 7);
    assert_eq!(h.samples, vec![4_000]);
}
