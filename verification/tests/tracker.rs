use afterglow::pair::{ControlPair, MAX_CHANNEL, MAX_VALUE, MIN_CHANNEL, MIN_VALUE};
use afterglow::tracker::ControlStateTracker;
use afterglow::wire::encode;

#[test]
fn ranges_are_as_declared() {
    assert_eq!((MIN_CHANNEL, MAX_CHANNEL), (1, 512));
    assert_eq!((MIN_VALUE, MAX_VALUE), (0, 255));
}

#[test]
fn default_pair_is_the_sentinel() {
    assert_eq!(ControlPair::default(), ControlPair { channel: 0, value: 0 });
    assert!(!ControlPair::check_range(0, 0));
}

#[test]
fn check_range_accepts_the_bounds_and_nothing_beyond() {
    assert!(ControlPair::check_range(1, 0));
    assert!(ControlPair::check_range(512, 255));
    assert!(ControlPair::check_range(1, 255));
    assert!(ControlPair::check_range(512, 0));
    assert!(!ControlPair::check_range(0, 10));
    assert!(!ControlPair::check_range(513, 10));
    assert!(!ControlPair::check_range(5, -1));
    assert!(!ControlPair::check_range(5, 256));
    assert!(!ControlPair::check_range(-3, 10));
    assert!(!ControlPair::check_range(i32::MIN, i32::MAX));
}

#[test]
fn new_tracker_remembers_the_sentinel() {
    assert_eq!(ControlStateTracker::new().last_sent(), ControlPair { channel: 0, value: 0 });
    assert_eq!(ControlStateTracker::default().last_sent(), ControlPair::default());
}

#[test]
fn first_observation_is_reported_and_encoded() {
    let tracker = ControlStateTracker::new();
    let change = tracker.observe(5, 10);
    assert_eq!(change, Some(ControlPair { channel: 5, value: 10 }));
    assert_eq!(encode(change.unwrap()), "{\"channel\":5,\"value\":10}".as_bytes().to_vec());
}

#[test]
fn first_observation_is_a_change_at_the_edges_of_the_ranges() {
    let tracker = ControlStateTracker::new();
    assert_eq!(tracker.observe(1, 0), Some(ControlPair { channel: 1, value: 0 }));
    assert_eq!(tracker.observe(512, 255), Some(ControlPair { channel: 512, value: 255 }));
    assert_eq!(tracker.observe(1, 255), Some(ControlPair { channel: 1, value: 255 }));
    assert_eq!(tracker.observe(512, 0), Some(ControlPair { channel: 512, value: 0 }));
}

#[test]
fn same_pair_again_is_no_change() {
    let mut tracker = ControlStateTracker::new();
    let first = tracker.observe(5, 10);
    assert_eq!(first, Some(ControlPair { channel: 5, value: 10 }));
    tracker.commit(first.unwrap());
    assert_eq!(tracker.observe(5, 10), None);
    assert_eq!(tracker.observe(5, 10), None);
}

#[test]
fn changed_value_is_a_change() {
    let mut tracker = ControlStateTracker::new();
    let first = tracker.observe(5, 10).unwrap();
    tracker.commit(first);
    assert_eq!(tracker.observe(5, 11), Some(ControlPair { channel: 5, value: 11 }));
}

#[test]
fn changed_channel_is_a_change() {
    let mut tracker = ControlStateTracker::new();
    tracker.commit(ControlPair { channel: 5, value: 10 });
    assert_eq!(tracker.observe(6, 10), Some(ControlPair { channel: 6, value: 10 }));
    assert_eq!(tracker.observe(6, 11), Some(ControlPair { channel: 6, value: 11 }));
}

#[test]
fn observing_does_not_commit() {
    let tracker = ControlStateTracker::new();
    assert_eq!(tracker.observe(5, 10), Some(ControlPair { channel: 5, value: 10 }));
    assert_eq!(tracker.last_sent(), ControlPair { channel: 0, value: 0 });
    assert_eq!(tracker.observe(5, 10), Some(ControlPair { channel: 5, value: 10 }));
}

#[test]
fn commit_replaces_what_is_remembered() {
    let mut tracker = ControlStateTracker::new();
    tracker.commit(ControlPair { channel: 7, value: 200 });
    assert_eq!(tracker.last_sent(), ControlPair { channel: 7, value: 200 });
    tracker.commit(ControlPair { channel: 8, value: 0 });
    assert_eq!(tracker.last_sent(), ControlPair { channel: 8, value: 0 });
    assert_eq!(tracker.observe(7, 200), Some(ControlPair { channel: 7, value: 200 }));
    assert_eq!(tracker.observe(8, 0), None);
}

#[test]
fn consecutive_observations_over_a_grid() {
    let pairs = [(1, 0), (1, 255), (512, 0), (512, 255), (5, 10), (5, 11), (6, 10)];
    for &(c1, v1) in pairs.iter() {
        for &(c2, v2) in pairs.iter() {
            let mut tracker = ControlStateTracker::new();
            let first = tracker.observe(c1, v1).unwrap();
            tracker.commit(first);
            let second = tracker.observe(c2, v2);
            if (c1, v1) == (c2, v2) {
                assert_eq!(second, None);
            } else {
                assert_eq!(second, Some(ControlPair { channel: c2, value: v2 }));
            }
        }
    }
}
