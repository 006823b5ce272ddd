use dreamfield::fixed::{advance, mul_add, saturate};

#[test]
fn saturate_keeps_values_in_range() {
    assert_eq!(saturate(0), 0);
    assert_eq!(saturate(-17), -17);
    assert_eq!(saturate(i64::MAX as i128), i64::MAX);
    assert_eq!(saturate(i64::MIN as i128), i64::MIN);
}

#[test]
fn saturate_clamps_at_both_ends() {
    assert_eq!(saturate(i64::MAX as i128 + 1), i64::MAX);
    assert_eq!(saturate(i64::MIN as i128 - 1), i64::MIN);
    assert_eq!(saturate(i128::MAX), i64::MAX);
    assert_eq!(saturate(i128::MIN), i64::MIN);
}

#[test]
fn mul_add_is_exact_in_range() {
    assert_eq!(mul_add(10, 3, 4), 22);
    assert_eq!(mul_add(10, -3, 4), -2);
    assert_eq!(mul_add(-5, 7, 0), -5);
    assert_eq!(mul_add(0, i64::MAX, 1), i64::MAX);
}

#[test]
fn mul_add_saturates() {
    assert_eq!(mul_add(1, i64::MAX, 1), i64::MAX);
    assert_eq!(mul_add(0, i64::MAX, i64::MAX), i64::MAX);
    assert_eq!(mul_add(0, i64::MIN, i64::MAX), i64::MIN);
    assert_eq!(mul_add(0, i64::MIN, i64::MIN), i64::MAX);
    assert_eq!(mul_add(-1, i64::MIN, 1), i64::MIN);
}

#[test]
fn advance_moves_by_velocity_times_dt() {
    assert_eq!(advance(0, 500, 100_000), 50_000_000);
    assert_eq!(advance(7, -2, 3), 1);
    assert_eq!(advance(7, 0, u64::MAX), 7);
    assert_eq!(advance(42, 9, 0), 42);
}

#[test]
fn advance_saturates_for_long_durations() {
    assert_eq!(advance(0, 1, u64::MAX), i64::MAX);
    assert_eq!(advance(0, -1, u64::MAX), i64::MIN);
    assert_eq!(advance(i64::MAX, i64::MAX, u64::MAX), i64::MAX);
    assert_eq!(advance(i64::MIN, i64::MIN, u64::MAX), i64::MIN);
}

#[test]
fn many_short_moves_end_where_one_long_move_ends() {
    let (p, v, dt): (i64, i64, u64) = (-1_000, 37, 11);
    let mut stepped = p;
    for _ in 0..60 {
        stepped = advance(stepped, v, dt);
    }
    assert_eq!(stepped, advance(p, v, 60 * dt));
    assert_eq!(stepped, -1_000 + 37 * 660);
}

#[test]
fn saturation_along_the_way_loses_nothing() {
    let (p, v, dt): (i64, i64, u64) = (i64::MAX - 10, 3, 2);
    let mut stepped = p;
    for _ in 0..5 {
        stepped = advance(stepped, v, dt);
    }
    assert_eq!(stepped, i64::MAX);
    assert_eq!(stepped, advance(p, v, 5 * dt));
}
