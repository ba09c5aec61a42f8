use ai_usagebar::double::Double;

fn of(x: f64) -> Double {
    Double { bits: x.to_bits() }
}

#[test]
fn percent_rounds_halves_up_and_keeps_to_the_bounds() {
    let cases: Vec<(f64, i32)> = vec![
        (0.0, 0),
        (-0.0, 0),
        (0.49999999999999994, 0),
        (0.5, 1),
        (1.5, 2),
        (2.5, 3),
        (42.4, 42),
        (42.7, 43),
        (99.49, 99),
        (99.5, 100),
        (100.0, 100),
        (100.4, 100),
        (150.0, 100),
        (1e300, 100),
        (5e-324, 0),
        (-0.4, 0),
        (-7.0, 0),
        (f64::MAX, 100),
        (f64::INFINITY, 100),
        (f64::NEG_INFINITY, 0),
        (f64::NAN, 0),
    ];
    for (x, expected) in cases {
        assert_eq!(of(x).to_percent(), expected, "{}", x);
        assert_eq!(x.round().clamp(0.0, 100.0) as i32, expected, "{}", x);
    }
}

#[test]
fn integers_are_cut_like_casts() {
    let cases: Vec<f64> = vec![
        0.0,
        -0.0,
        0.9,
        -0.9,
        1.0,
        -1.0,
        3600.7,
        1779792169974.0,
        -1779792169974.5,
        4503599627370495.5,
        9007199254740991.0,
        9007199254740993.0,
        9223372036854774784.0,
        9223372036854775808.0,
        -9223372036854775808.0,
        -9223372036854777856.0,
        18446744073709549568.0,
        18446744073709551616.0,
        1e300,
        -1e300,
        5e-324,
        f64::MIN_POSITIVE,
        f64::INFINITY,
        f64::NEG_INFINITY,
        f64::NAN,
    ];
    for x in cases {
        assert_eq!(of(x).to_i64(), x as i64, "{}", x);
        assert_eq!(of(x).to_u64(), x as u64, "{}", x);
    }
}

#[test]
fn percent_agrees_with_rounding_on_many_values() {
    let mut bits: u64 = 0x3ff0_0000_0000_0001;
    for _ in 0..20000 {
        bits = bits.wrapping_mul(6364136223846793005).wrapping_add(1442695040888963407);
        let x = f64::from_bits(bits);
        assert_eq!(of(x).to_percent(), x.round().clamp(0.0, 100.0) as i32);
        assert_eq!(of(x).to_i64(), x as i64);
        let y = (bits % 12000) as f64 / 100.0;
        assert_eq!(of(y).to_percent(), y.round().clamp(0.0, 100.0) as i32);
    }
}

#[test]
fn whole_percentages_stay_and_order_is_kept() {
    for n in 0..101 {
        assert_eq!(of(n as f64).to_percent(), n);
    }
    let mut before = 0;
    for n in 0..1200 {
        let now = of(n as f64 / 10.0).to_percent();
        assert!(before <= now);
        before = now;
    }
}
