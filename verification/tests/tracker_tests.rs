use origins_splitter::tracker::Tracker;
use origins_splitter::tracker::bonus_step;
use origins_splitter::tracker::trigger_step;

#[test]
fn first_update_fills_both_fields() {
    let mut t: Tracker<u8> = Tracker::new();
    assert!(t.pair.is_none());
    t.update(7);
    let p = t.pair.unwrap();
    assert_eq!(p.previous, 7);
    assert_eq!(p.current, 7);
}

#[test]
fn update_shifts_current_to_previous() {
    let mut t: Tracker<u8> = Tracker::new();
    t.update(1);
    t.update(2);
    let p = t.pair.unwrap();
    assert_eq!(p.previous, 1);
    assert_eq!(p.current, 2);
    t.update(3);
    let p = t.pair.unwrap();
    assert_eq!(p.previous, 2);
    assert_eq!(p.current, 3);
}

#[test]
fn current_or_defaults_before_first_update() {
    let t: Tracker<u8> = Tracker::new();
    assert_eq!(t.current_or(9), 9);
    let mut t2: Tracker<u8> = Tracker::new();
    t2.update(4);
    assert_eq!(t2.current_or(9), 4);
}

#[test]
fn trigger_edge_fires_exactly_on_armed_to_fired() {
    let mut t: Tracker<u8> = Tracker::new();
    // armed = 6, fired = 1, as for the first title
    assert!(!trigger_step(&mut t, Some(6), 6, 1)); // first sample: 6 -> 6
    assert!(!trigger_step(&mut t, Some(6), 6, 1)); // 6 -> 6
    assert!(trigger_step(&mut t, Some(1), 6, 1)); // 6 -> 1: the pulse
    assert!(!trigger_step(&mut t, Some(1), 6, 1)); // 1 -> 1: no re-fire
    assert!(!trigger_step(&mut t, Some(6), 6, 1)); // 1 -> 6
    assert!(trigger_step(&mut t, Some(1), 6, 1)); // re-armed, fires again
}

#[test]
fn trigger_failed_read_counts_as_zero() {
    let mut t: Tracker<u8> = Tracker::new();
    assert!(!trigger_step(&mut t, Some(6), 6, 0));
    // a failed read samples zero, which here is the fired value
    assert!(trigger_step(&mut t, None, 6, 0));
}

#[test]
fn bonus_capture_tick_is_inactive() {
    let mut t: Tracker<u32> = Tracker::new();
    let mut baseline: u32 = 0;
    assert!(!bonus_step(&mut t, &mut baseline, Some(0)));
    // 0 -> 5: the baseline-capture tick reports inactive
    assert!(!bonus_step(&mut t, &mut baseline, Some(5)));
    assert_eq!(baseline, 5);
    // still at the baseline: inactive
    assert!(!bonus_step(&mut t, &mut baseline, Some(5)));
    // moved off the baseline: active
    assert!(bonus_step(&mut t, &mut baseline, Some(8)));
    assert!(bonus_step(&mut t, &mut baseline, Some(2)));
    // back to zero: inactive and baseline cleared
    assert!(!bonus_step(&mut t, &mut baseline, Some(0)));
    assert_eq!(baseline, 0);
}

#[test]
fn bonus_failed_read_counts_as_zero() {
    let mut t: Tracker<u32> = Tracker::new();
    let mut baseline: u32 = 0;
    assert!(!bonus_step(&mut t, &mut baseline, Some(0)));
    assert!(!bonus_step(&mut t, &mut baseline, Some(3))); // capture tick
    assert!(bonus_step(&mut t, &mut baseline, Some(4)));
    // a failed read samples zero: the bonus ends
    assert!(!bonus_step(&mut t, &mut baseline, None));
    assert_eq!(baseline, 0);
}
