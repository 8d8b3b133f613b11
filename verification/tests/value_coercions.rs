use soft_plc::binary64;
use soft_plc::value::SignalValue;

#[test]
fn as_bool_from_bool_and_int() {
    assert_eq!(SignalValue::Bool(true).as_bool(), Some(true));
    assert_eq!(SignalValue::Bool(false).as_bool(), Some(false));
    assert_eq!(SignalValue::Int(0).as_bool(), Some(false));
    assert_eq!(SignalValue::Int(42).as_bool(), Some(true));
    assert_eq!(SignalValue::Int(-1).as_bool(), Some(true));
    assert_eq!(SignalValue::Float(1.0f64.to_bits()).as_bool(), None);
    assert_eq!(SignalValue::Str("yes".to_string()).as_bool(), None);
}

#[test]
fn as_int_from_all_shapes() {
    assert_eq!(SignalValue::Int(7).as_int(), Some(7));
    assert_eq!(SignalValue::Bool(true).as_int(), Some(1));
    assert_eq!(SignalValue::Bool(false).as_int(), Some(0));
    assert_eq!(SignalValue::Str("3".to_string()).as_int(), None);
}

#[test]
fn as_int_truncates_floats_toward_zero() {
    assert_eq!(SignalValue::Float(7.9f64.to_bits()).as_int(), Some(7));
    assert_eq!(SignalValue::Float((-7.9f64).to_bits()).as_int(), Some(-7));
    assert_eq!(SignalValue::Float(0.25f64.to_bits()).as_int(), Some(0));
    assert_eq!(SignalValue::Float((-0.0f64).to_bits()).as_int(), Some(0));
    assert_eq!(SignalValue::Float(f64::NAN.to_bits()).as_int(), Some(0));
    // saturation at the bounds, as Rust's own cast behaves
    assert_eq!(SignalValue::Float(1.0e12f64.to_bits()).as_int(), Some(i32::MAX));
    assert_eq!(SignalValue::Float((-1.0e12f64).to_bits()).as_int(), Some(i32::MIN));
    assert_eq!(SignalValue::Float(f64::INFINITY.to_bits()).as_int(), Some(i32::MAX));
    assert_eq!(
        SignalValue::Float(2147483647.0f64.to_bits()).as_int(),
        Some(2147483647)
    );
    assert_eq!(
        SignalValue::Float((-2147483648.0f64).to_bits()).as_int(),
        Some(-2147483648)
    );
    // every f64 -> i32 conversion agrees with the native cast on a sweep
    let mut x = -3.0e9f64;
    while x < 3.0e9 {
        assert_eq!(
            SignalValue::Float(x.to_bits()).as_int(),
            Some(x as i32),
            "mismatch at {}",
            x
        );
        x += 1.23456789e7;
    }
}

#[test]
fn as_float_widens_ints_exactly() {
    assert_eq!(
        SignalValue::Int(0).as_float(),
        Some(0.0f64.to_bits())
    );
    assert_eq!(
        SignalValue::Int(5).as_float(),
        Some(5.0f64.to_bits())
    );
    assert_eq!(
        SignalValue::Int(-5).as_float(),
        Some((-5.0f64).to_bits())
    );
    assert_eq!(
        SignalValue::Int(i32::MAX).as_float(),
        Some((i32::MAX as f64).to_bits())
    );
    assert_eq!(
        SignalValue::Int(i32::MIN).as_float(),
        Some((i32::MIN as f64).to_bits())
    );
    let bits = SignalValue::Float(2.5f64.to_bits()).as_float();
    assert_eq!(bits, Some(2.5f64.to_bits()));
    assert_eq!(SignalValue::Bool(true).as_float(), None);
    // a sweep against the native conversion
    let mut i: i64 = -2_000_000_000;
    while i < 2_000_000_000 {
        assert_eq!(
            SignalValue::Int(i as i32).as_float(),
            Some((i as i32 as f64).to_bits()),
            "mismatch at {}",
            i
        );
        i += 98_765_431;
    }
}

#[test]
fn type_labels() {
    assert_eq!(SignalValue::Bool(true).type_label(), "bool");
    assert_eq!(SignalValue::Int(1).type_label(), "int");
    assert_eq!(SignalValue::Float(0).type_label(), "float");
    assert_eq!(SignalValue::Str(String::new()).type_label(), "string");
}

#[test]
fn binary64_ordering_matches_native() {
    let samples = [
        0.0f64,
        -0.0,
        1.0,
        -1.0,
        1.5,
        -2.5,
        49.999,
        50.0,
        55.0,
        f64::MIN_POSITIVE,
        -f64::MIN_POSITIVE,
        f64::INFINITY,
        f64::NEG_INFINITY,
        f64::NAN,
        1.0e308,
        -1.0e308,
        5e-324,
    ];
    for &a in &samples {
        for &b in &samples {
            assert_eq!(
                binary64::lt_bits(a.to_bits(), b.to_bits()),
                a < b,
                "lt mismatch: {} {}",
                a,
                b
            );
            assert_eq!(
                binary64::eq_bits(a.to_bits(), b.to_bits()),
                a == b,
                "eq mismatch: {} {}",
                a,
                b
            );
        }
    }
}

#[test]
fn coercions_compose() {
    // as_int(Bool(b)) then as_bool(Int(..)) gives back b
    for &b in &[false, true] {
        let i = SignalValue::Bool(b).as_int().unwrap();
        assert_eq!(SignalValue::Int(i).as_bool(), Some(b));
    }
    // as_bool(Int(i)) is exactly the non-zero test
    for &i in &[i32::MIN, -1, 0, 1, i32::MAX] {
        assert_eq!(SignalValue::Int(i).as_bool(), Some(i != 0));
    }
}
