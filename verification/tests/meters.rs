use battle_core::meters::{InstantMeter, Meter, RollingMeter};

#[test]
fn instant_meter_new_holds_values() {
    let m = InstantMeter::new(30, 50);
    assert_eq!(m.current_value, 30);
    assert_eq!(m.max, 50);
}

#[test]
fn meter_current_and_max_reads_both_variants() {
    let instant = Meter::Instant(InstantMeter::new(7, 9));
    assert_eq!(instant.current_and_max(), (7, 9));
    let rolling = Meter::Rolling(RollingMeter::new(41, 99));
    assert_eq!(rolling.current_and_max(), (41, 99));
}

#[test]
fn rolling_meter_starts_at_its_target() {
    let m = RollingMeter::new(80, 100);
    assert_eq!(m.current_value, 80);
    assert_eq!(m.target_value, 80);
    assert_eq!(m.accumulator, 0);
    assert_eq!(m.current_rate(), 1);
}

#[test]
fn rolling_meter_steps_one_unit_per_second() {
    let mut m = RollingMeter::new(50, 100);
    m.set_target(40);
    m.update(500);
    assert_eq!(m.current_value, 50);
    assert_eq!(m.accumulator, 500);
    m.update(500);
    assert_eq!(m.current_value, 49);
    assert_eq!(m.accumulator, 0);
    m.update(3000);
    assert_eq!(m.current_value, 46);
}

#[test]
fn rolling_meter_converges_without_overshoot() {
    let mut m = RollingMeter::new(50, 100);
    m.set_target(47);
    // Far more time than the three units need: clamps on the target.
    m.update(60_000);
    assert_eq!(m.current_value, 47);
    assert_eq!(m.accumulator, 0);
    // Once settled, nothing moves.
    m.update(60_000);
    assert_eq!(m.current_value, 47);
}

#[test]
fn rolling_meter_rises_toward_higher_target() {
    let mut m = RollingMeter::new(10, 100);
    m.set_target(12);
    m.update(1000);
    assert_eq!(m.current_value, 11);
    m.update(1000);
    assert_eq!(m.current_value, 12);
    m.update(1000);
    assert_eq!(m.current_value, 12);
}

#[test]
fn rolling_meter_exact_landing_keeps_fraction() {
    let mut m = RollingMeter::new(10, 100);
    m.set_target(9);
    // 1 whole unit and 250 ms left over: lands exactly, keeps the rest.
    m.update(1250);
    assert_eq!(m.current_value, 9);
    assert_eq!(m.accumulator, 250);
}

#[test]
fn rolling_meter_zero_elapsed_time_changes_nothing() {
    let mut m = RollingMeter::new(20, 100);
    m.set_target(0);
    m.update(0);
    assert_eq!(m.current_value, 20);
    assert_eq!(m.accumulator, 0);
}

#[test]
fn set_target_clamps_to_max() {
    let mut m = RollingMeter::new(20, 60);
    m.set_target(200);
    assert_eq!(m.target_value, 60);
}

#[test]
fn instant_meter_hit_lands_at_once() {
    let mut m = Meter::Instant(InstantMeter::new(40, 40));
    m.hit(15);
    assert_eq!(m.current_and_max().0, 25);
    m.hit(100);
    assert_eq!(m.current_and_max().0, 0);
}

#[test]
fn rolling_meter_hit_only_reaims_the_target() {
    let mut m = Meter::Rolling(RollingMeter::new(40, 40));
    m.hit(15);
    assert_eq!(m.current_and_max().0, 40);
    if let Meter::Rolling(r) = m {
        assert_eq!(r.target_value, 25);
    } else {
        panic!("variant changed");
    }
}

#[test]
fn apply_delta_clamps_both_ways() {
    let mut m = Meter::Instant(InstantMeter::new(10, 30));
    m.apply_delta(100);
    assert_eq!(m.current_and_max().0, 30);
    m.apply_delta(-100);
    assert_eq!(m.current_and_max().0, 0);
    m.apply_delta(12);
    assert_eq!(m.current_and_max().0, 12);
}
