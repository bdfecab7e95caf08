use pet_overlay::geometry::{
    normalize_coord, normalize_extent, normalize_point, round_div_signed, round_div_unsigned,
    scale_or_identity, PointerCoordinate, Scale,
};

#[test]
fn scale_new_refuses_zero_components() {
    assert!(Scale::new(0, 1).is_none());
    assert!(Scale::new(1, 0).is_none());
    assert!(Scale::new(0, 0).is_none());
    assert_eq!(Scale::new(2, 1), Some(Scale { num: 2, den: 1 }));
}

#[test]
fn scale_one_is_identity() {
    let s = Scale::one();
    assert_eq!(s, Scale { num: 1, den: 1 });
    assert_eq!(normalize_coord(12345, &s), 12345);
    assert_eq!(normalize_extent(12345, &s), 12345);
}

#[test]
fn scale_or_identity_prefers_the_reported_scale() {
    let s = Scale { num: 3, den: 2 };
    assert_eq!(scale_or_identity(Some(s)), s);
    assert_eq!(scale_or_identity(None), Scale { num: 1, den: 1 });
}

#[test]
fn rounding_is_to_nearest() {
    assert_eq!(round_div_unsigned(10, 4), 3); // 2.5 rounds up
    assert_eq!(round_div_unsigned(9, 4), 2); // 2.25 rounds down
    assert_eq!(round_div_unsigned(11, 4), 3); // 2.75 rounds up
    assert_eq!(round_div_unsigned(0, 7), 0);
    assert_eq!(round_div_signed(5, 4), 1);
    assert_eq!(round_div_signed(7, 4), 2);
}

#[test]
fn rounding_ties_go_away_from_zero() {
    assert_eq!(round_div_signed(1, 2), 1); // 0.5 -> 1
    assert_eq!(round_div_signed(-1, 2), -1); // -0.5 -> -1
    assert_eq!(round_div_signed(3, 2), 2); // 1.5 -> 2
    assert_eq!(round_div_signed(-3, 2), -2); // -1.5 -> -2
    assert_eq!(round_div_signed(-9, 4), -2); // -2.25 -> -2
    assert_eq!(round_div_signed(-10, 4), -3); // -2.5 -> -3
}

#[test]
fn rounding_handles_extreme_inputs() {
    assert_eq!(round_div_signed(i64::MIN, 1), i64::MIN);
    assert_eq!(round_div_signed(i64::MAX, 1), i64::MAX);
    assert_eq!(round_div_unsigned(u64::MAX, 1), u64::MAX);
    // |i64::MIN| / (2^32 - 1) = 2^31 + 2^31/(2^32 - 1), just above the tie.
    assert_eq!(round_div_signed(i64::MIN, u32::MAX), -2147483649);
}

#[test]
fn normalize_divides_by_the_scale_factor() {
    // Scale 2.0 as the rational 2/1.
    let s2 = Scale { num: 2, den: 1 };
    assert_eq!(normalize_coord(3840, &s2), 1920);
    assert_eq!(normalize_coord(-100, &s2), -50);
    assert_eq!(normalize_coord(3841, &s2), 1921); // 1920.5 away from zero
    assert_eq!(normalize_coord(-3841, &s2), -1921);
    assert_eq!(normalize_extent(2161, &s2), 1081); // 1080.5 away from zero

    // Scale 1.5 as the rational 3/2.
    let s15 = Scale { num: 3, den: 2 };
    assert_eq!(normalize_coord(3, &s15), 2);
    assert_eq!(normalize_coord(100, &s15), 67); // 66.67 rounds up

    // Scale 1.25 as the rational 5/4.
    let s125 = Scale { num: 5, den: 4 };
    assert_eq!(normalize_coord(100, &s125), 80);
    assert_eq!(normalize_extent(1000, &s125), 800);

    // A downscaling factor below one: 0.5 as 1/2.
    let half = Scale { num: 1, den: 2 };
    assert_eq!(normalize_coord(100, &half), 200);
}

#[test]
fn normalize_point_normalizes_both_axes() {
    let s = Scale { num: 2, den: 1 };
    assert_eq!(normalize_point(100, 251, &s), PointerCoordinate { x: 50, y: 126 });
}

#[test]
fn normalize_round_trip_stays_within_half_a_unit() {
    // Scaling the normalized value back multiplies by num/den; the result
    // must land within half a logical unit of the physical value.
    let cases: Vec<(i32, u32, u32)> = vec![
        (101, 2, 1),
        (-101, 2, 1),
        (77, 3, 2),
        (-77, 3, 2),
        (123456, 5, 4),
        (1, 7, 3),
        (0, 9, 5),
        (-2147483648, 4, 3),
        (2147483647, 4, 3),
    ];
    for (p, num, den) in cases {
        let s = Scale { num, den };
        let n = normalize_coord(p, &s) as i128;
        let lhs = 2 * (n * num as i128 - p as i128 * den as i128).abs();
        assert!(lhs <= num as i128, "p={p} num={num} den={den}");
    }
}
