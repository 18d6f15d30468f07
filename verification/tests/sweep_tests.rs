use wg_mtu_finder::sweep::SweepRange;

#[test]
fn default_range_walks_down_to_its_floor() {
    let r = SweepRange::new(1280, 1500, 20).unwrap();
    let v = r.values();
    assert_eq!(
        v,
        vec![1500, 1480, 1460, 1440, 1420, 1400, 1380, 1360, 1340, 1320, 1300, 1280]
    );
    assert_eq!(v.len(), 12);
    assert_eq!(v[0], 1500);
    assert_eq!(*v.last().unwrap(), 1280);
    for w in v.windows(2) {
        assert_eq!(w[0] - w[1], 20);
    }
    for x in &v {
        assert!(*x >= 1280);
    }
}

#[test]
fn uneven_step_stops_above_floor() {
    let r = SweepRange::new(1000, 1500, 300).unwrap();
    assert_eq!(r.values(), vec![1500, 1200]);
}

#[test]
fn empty_when_floor_exceeds_ceiling() {
    let r = SweepRange::new(1501, 1500, 20).unwrap();
    assert_eq!(r.values(), Vec::<u32>::new());
    assert_eq!(r.count(), 0);
}

#[test]
fn single_value_when_bounds_meet() {
    let r = SweepRange::new(1400, 1400, 9).unwrap();
    assert_eq!(r.values(), vec![1400]);
}

#[test]
fn zero_step_is_rejected() {
    assert!(SweepRange::new(1280, 1500, 0).is_none());
    assert!(SweepRange::new(1280, 1500, 1).is_some());
}

#[test]
fn count_matches_values() {
    for (min, max, step) in [(1280u32, 1500u32, 20u32), (1, 9, 3), (5, 5, 1), (0, 10, 1)] {
        let r = SweepRange::new(min, max, step).unwrap();
        assert_eq!(r.count() as usize, r.values().len());
    }
}

#[test]
fn indexed_access_matches_values() {
    let r = SweepRange::new(1280, 1500, 20).unwrap();
    let v = r.values();
    for (k, x) in v.iter().enumerate() {
        assert_eq!(r.value_at_index(k as u64), *x);
    }
}
