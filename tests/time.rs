use monotonic_clock::{
    clear_time, next_duration, set_time_nanos, Clock, FixedClock, JsDuration, JsInstant, StdClock,
    TimeSlot,
};

#[test]
fn monotone() {
    let mut slot = TimeSlot::new();
    set_time_nanos(&mut slot, 1_700_000_000_000_000_000); // arbitrary epoch
    let clk = StdClock;
    let a = clk.now(&mut slot);
    let b = clk.now(&mut slot);
    assert!(b > a);
    assert_eq!(b.nanos_since_epoch() - a.nanos_since_epoch(), 1);
    clear_time(&mut slot);
}

#[test]
fn first_reading_is_published_time() {
    let mut slot = TimeSlot::new();
    set_time_nanos(&mut slot, 1_700_000_000_000_000_000);
    let a = StdClock.now(&mut slot);
    let b = StdClock.now(&mut slot);
    assert_eq!(a.nanos_since_epoch(), 1_700_000_000_000_000_000);
    assert_eq!(b - a, JsDuration::new(0, 1));
    assert!(b > a);
    clear_time(&mut slot);
}

#[test]
fn readings_count_up_from_zero() {
    let mut slot = TimeSlot::new();
    set_time_nanos(&mut slot, 0);
    let mut seen = Vec::new();
    for _ in 0..5 {
        seen.push(StdClock.now(&mut slot).nanos_since_epoch());
    }
    assert_eq!(seen, vec![0, 1, 2, 3, 4]);
}

#[test]
fn many_readings_rise_by_one() {
    let mut slot = TimeSlot::new();
    set_time_nanos(&mut slot, 999_999_990);
    let mut prev = StdClock.now(&mut slot);
    for _ in 0..100 {
        let next = StdClock.now(&mut slot);
        assert!(next > prev);
        assert_eq!(next.nanos_since_epoch(), prev.nanos_since_epoch() + 1);
        prev = next;
    }
    assert_eq!(prev.nanos_since_epoch(), 1_000_000_090);
}

#[test]
fn rearm_resets_count() {
    let mut slot = TimeSlot::new();
    set_time_nanos(&mut slot, 10_000_000_000);
    StdClock.now(&mut slot);
    StdClock.now(&mut slot);
    set_time_nanos(&mut slot, 20_000_000_000);
    assert_eq!(StdClock.now(&mut slot).nanos_since_epoch(), 20_000_000_000);
}

#[test]
fn clear_resets_count() {
    let mut slot = TimeSlot::new();
    set_time_nanos(&mut slot, 1_000);
    StdClock.now(&mut slot);
    clear_time(&mut slot);
    set_time_nanos(&mut slot, 2_000);
    assert_eq!(StdClock.now(&mut slot).nanos_since_epoch(), 2_000);
}

#[test]
fn empty_slot_yields_nothing() {
    let mut slot = TimeSlot::new();
    assert_eq!(next_duration(&mut slot), None);
    set_time_nanos(&mut slot, 5);
    clear_time(&mut slot);
    assert_eq!(next_duration(&mut slot), None);
    clear_time(&mut slot);
    assert_eq!(next_duration(&mut slot), None);
}

#[test]
fn next_duration_splits_seconds() {
    let mut slot = TimeSlot::new();
    set_time_nanos(&mut slot, 3_000_000_007);
    let d = next_duration(&mut slot).unwrap();
    assert_eq!(d.as_secs(), 3);
    assert_eq!(d.subsec_nanos(), 7);
    assert_eq!(next_duration(&mut slot).unwrap().as_nanos(), 3_000_000_008);
}

#[test]
fn next_duration_out_of_range() {
    let mut slot = TimeSlot::new();
    set_time_nanos(&mut slot, u128::MAX);
    assert_eq!(next_duration(&mut slot), None);
    let largest = u64::MAX as u128 * 1_000_000_000 + 999_999_999;
    set_time_nanos(&mut slot, largest);
    assert_eq!(next_duration(&mut slot).unwrap().as_nanos(), largest);
    assert_eq!(next_duration(&mut slot), None);
}

#[test]
fn fixed_clock_reads_and_forwards() {
    let mut c = FixedClock::from_millis(500);
    let mut slot = TimeSlot::new();
    let first = c.now(&mut slot);
    c.forward(250);
    let second = c.now(&mut slot);
    assert_eq!(first, JsInstant::new(0, 500_000_000));
    assert_eq!(second, JsInstant::new(0, 750_000_000));
    assert_eq!(first.millis_since_epoch(), 500);
    assert_eq!(second.nanos_since_epoch(), 750_000_000);
    assert_eq!(c.now(&mut slot), second);
}

#[test]
fn fixed_clock_leaves_slot_alone() {
    let mut slot = TimeSlot::new();
    set_time_nanos(&mut slot, 100);
    let mut c = FixedClock::from_millis(1_234);
    assert_eq!(StdClock.now(&mut slot).nanos_since_epoch(), 100);
    assert_eq!(c.now(&mut slot).millis_since_epoch(), 1_234);
    c.forward(1);
    assert_eq!(c.now(&mut slot).millis_since_epoch(), 1_235);
    assert_eq!(StdClock.now(&mut slot).nanos_since_epoch(), 101);
    set_time_nanos(&mut slot, 7);
    assert_eq!(c.now(&mut slot).millis_since_epoch(), 1_235);
    let mut empty = TimeSlot::new();
    assert_eq!(c.now(&mut empty).nanos_since_epoch(), 1_235_000_000);
    assert_eq!(next_duration(&mut empty), None);
}

#[test]
fn instant_round_trip() {
    let a = JsInstant::new(1_700_000_000, 123_456_789);
    let b = JsInstant::new(1_600_000_000, 987_654_321);
    assert!(a >= b);
    assert_eq!(b + (a - b), a);
    assert_eq!(a - (a - b), b);
    assert_eq!((a - b).as_nanos(), 99_999_999_135_802_468);
    assert_eq!(a - a, JsDuration::from_millis(0));
}

#[test]
fn duration_round_trip() {
    let d1 = JsDuration::new(12, 999_999_999);
    let d2 = JsDuration::new(3, 2);
    assert_eq!((d1 + d2) - d2, d1);
    assert_eq!((d1 + d2).as_nanos(), 16_000_000_001);
    assert_eq!(d1.checked_add(d2), Some(d1 + d2));
    assert_eq!(d2.checked_sub(d1), None);
    assert_eq!(d1.checked_sub(d2), Some(JsDuration::new(9, 999_999_997)));
}

#[test]
fn duration_overflow_is_refused() {
    let top = JsDuration::new(u64::MAX, 999_999_999);
    assert_eq!(top.checked_add(JsDuration::new(0, 1)), None);
    assert_eq!(top.checked_add(JsDuration::from_millis(0)), Some(top));
}

#[test]
fn millis_projection() {
    for m in [0u64, 1, 999, 1_000, 1_234_567, u64::MAX] {
        assert_eq!(JsDuration::from_millis(m).as_millis(), m);
    }
    let d = JsDuration::from_millis(1_234_567);
    assert_eq!(d.as_secs(), 1_234);
    assert_eq!(d.subsec_nanos(), 567_000_000);
    assert_eq!(d.as_nanos(), 1_234_567_000_000);
}

#[test]
fn millis_projection_keeps_low_bits() {
    let top = JsDuration::new(u64::MAX, 999_999_999);
    let expected = ((u64::MAX as u128 * 1_000 + 999) % (1u128 << 64)) as u64;
    assert_eq!(top.as_millis(), expected);
    assert_eq!(JsInstant::new(u64::MAX, 999_999_999).millis_since_epoch(), expected);
}

#[test]
fn instant_nanos_projection() {
    assert_eq!(JsInstant::new(0, 0).nanos_since_epoch(), 0);
    assert_eq!(JsInstant::new(5, 6).nanos_since_epoch(), 5_000_000_006);
    assert_eq!(
        JsInstant::new(u64::MAX, 999_999_999).nanos_since_epoch(),
        u64::MAX as u128 * 1_000_000_000 + 999_999_999
    );
    assert_eq!(JsInstant::new(1_700_000_000, 250_000_000).millis_since_epoch(), 1_700_000_000_250);
}

#[test]
fn instant_shift_by_duration() {
    let t = JsInstant::new(10, 500_000_000);
    let d = JsDuration::from_millis(750);
    assert_eq!(t + d, JsInstant::new(11, 250_000_000));
    assert_eq!(t - d, JsInstant::new(9, 750_000_000));
}
