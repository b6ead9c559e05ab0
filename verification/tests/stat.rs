use battle_core::battle::stat::{damage, damage_from_roll, Stat};

#[test]
fn new_stat_has_no_modifier() {
    let s = Stat::new(40);
    assert_eq!(s.base, 40);
    assert_eq!(s.modifier, 0);
    assert_eq!(s.multiplied(), 40);
}

#[test]
fn multiplier_table_matches_each_level() {
    let mut s = Stat::new(40);
    s.buff(-3);
    assert_eq!(s.multiplied(), 5); // 40 / 8
    let mut s = Stat::new(40);
    s.buff(-2);
    assert_eq!(s.multiplied(), 10); // 40 / 4
    let mut s = Stat::new(40);
    s.buff(-1);
    assert_eq!(s.multiplied(), 20); // 40 / 2
    let mut s = Stat::new(40);
    s.buff(1);
    assert_eq!(s.multiplied(), 60); // 40 * 1.5
    let mut s = Stat::new(40);
    s.buff(2);
    assert_eq!(s.multiplied(), 70); // 40 * 1.75
    let mut s = Stat::new(40);
    s.buff(3);
    assert_eq!(s.multiplied(), 80); // 40 * 2
}

#[test]
fn multiplied_truncates_fractions() {
    let mut s = Stat::new(41);
    s.buff(-3);
    // 41 / 8 = 5.125, truncated.
    assert_eq!(s.multiplied(), 5);
}

#[test]
fn buff_returns_the_signed_delta() {
    let mut s = Stat::new(40);
    assert_eq!(s.buff(1), 20); // 40 -> 60
    assert_eq!(s.buff(1), 10); // 60 -> 70
    assert_eq!(s.buff(-4), -60); // 70 -> 10
    assert_eq!(s.modifier, -2);
    assert_eq!(s.buff(-5), -5); // 10 -> 5, clamped at the -3 floor
    assert_eq!(s.modifier, -3);
}

#[test]
fn buff_clamps_at_the_table_bounds() {
    let mut s = Stat::new(10);
    s.buff(100);
    assert_eq!(s.modifier, 3);
    s.buff(-100);
    assert_eq!(s.modifier, -3);
}

#[test]
fn buff_up_then_down_restores_the_modifier() {
    // Net-zero buffing is inverse-consistent when nothing clamps.
    let mut s = Stat::new(40);
    s.buff(2);
    s.buff(-2);
    assert_eq!(s.modifier, 0);
    assert_eq!(s.multiplied(), 40);

    let mut s = Stat::new(40);
    s.buff(1);
    s.buff(2);
    s.buff(-2);
    assert_eq!(s.modifier, 1);
}

#[test]
fn damage_from_roll_is_exact() {
    // Base 45 - 10 = 35, scaled by the roll percentage, truncated.
    assert_eq!(damage_from_roll(45, 1, 10, 75), 26);
    assert_eq!(damage_from_roll(45, 1, 10, 100), 35);
    assert_eq!(damage_from_roll(45, 1, 10, 124), 43);
}

#[test]
fn damage_clamps_at_zero_when_defense_wins() {
    assert_eq!(damage_from_roll(10, 1, 50, 124), 0);
    assert_eq!(damage(10, 1, 50), 0);
}

#[test]
fn damage_saturates_at_the_u16_limit() {
    assert_eq!(damage_from_roll(60000, 2, 0, 124), u16::MAX);
}

#[test]
fn damage_roll_stays_in_its_band() {
    // offense 45, defense 10, attack level 1: every roll lands in [26, 43].
    for _ in 0..200 {
        let d = damage(45, 1, 10);
        assert!((26..=43).contains(&d), "damage {} out of band", d);
    }
}
