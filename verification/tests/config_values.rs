use ratatoskr_subscriptions::prelude::ConfigValue;

#[test]
fn widening_round_trip_signed() {
    assert!(ConfigValue::from(-5i8) == -5i8);
    assert!(ConfigValue::from(i8::MIN) == i8::MIN);
    assert!(ConfigValue::from(i8::MAX) == i8::MAX);
    assert!(ConfigValue::from(-300i16) == -300i16);
    assert!(ConfigValue::from(i16::MIN) == i16::MIN);
    assert!(ConfigValue::from(123456i32) == 123456i32);
    assert!(ConfigValue::from(i32::MIN) == i32::MIN);
    assert!(ConfigValue::from(i64::MIN) == i64::MIN);
    assert!(ConfigValue::from(i64::MAX) == i64::MAX);
}

#[test]
fn widening_round_trip_unsigned() {
    assert!(ConfigValue::from(0u8) == 0u8);
    assert!(ConfigValue::from(u8::MAX) == u8::MAX);
    assert!(ConfigValue::from(u16::MAX) == u16::MAX);
    assert!(ConfigValue::from(u32::MAX) == u32::MAX);
}

#[test]
fn round_trip_bool_and_text() {
    assert!(ConfigValue::from(true) == true);
    assert!(ConfigValue::from(false) == false);
    assert!(ConfigValue::from("hello") == "hello");
    assert!(ConfigValue::from(String::from("hello")) == String::from("hello"));
    assert!(ConfigValue::from_text("hello") == "hello");
}

#[test]
fn typed_equality_rejects_other_variants() {
    assert!(!(ConfigValue::from("1") == 1i32));
    assert!(!(ConfigValue::from(1i32) == "1"));
    assert!(!(ConfigValue::from(true) == 1i64));
    assert!(!(ConfigValue::from(0i64) == false));
    assert!(!(ConfigValue::from(2i64) == 3i64));
    assert!(!(ConfigValue::from("a") == String::from("b")));
}

#[test]
fn cross_variant_values_are_unequal() {
    let one_int = ConfigValue::Integer(1);
    let one_text = ConfigValue::String(String::from("1"));
    let one_float = ConfigValue::Float((1.0f64).to_bits());
    let truthy = ConfigValue::Boolean(true);
    assert_ne!(one_int, one_text);
    assert_ne!(one_int, one_float);
    assert_ne!(one_int, truthy);
    assert_ne!(one_text, one_float);
    assert_ne!(one_text, truthy);
    assert_ne!(one_float, truthy);
}

#[test]
fn same_variant_equality_is_by_value() {
    assert_eq!(ConfigValue::Integer(42), ConfigValue::Integer(42));
    assert_ne!(ConfigValue::Integer(42), ConfigValue::Integer(43));
    assert_eq!(ConfigValue::Boolean(true), ConfigValue::Boolean(true));
    assert_ne!(ConfigValue::Boolean(true), ConfigValue::Boolean(false));
    assert_eq!(
        ConfigValue::String(String::from("x")),
        ConfigValue::String(String::from("x"))
    );
    assert_ne!(
        ConfigValue::String(String::from("x")),
        ConfigValue::String(String::from("y"))
    );
}

#[test]
fn float_equality_follows_ieee_rules() {
    let half = ConfigValue::Float((1.5f64).to_bits());
    let half_from_f32 = ConfigValue::Float((1.5f32 as f64).to_bits());
    assert_eq!(half, half_from_f32);
    assert_ne!(
        ConfigValue::Float((1.5f64).to_bits()),
        ConfigValue::Float((2.5f64).to_bits())
    );
    let nan = ConfigValue::Float(f64::NAN.to_bits());
    assert_ne!(nan.clone(), nan);
    let pos_zero = ConfigValue::Float((0.0f64).to_bits());
    let neg_zero = ConfigValue::Float((-0.0f64).to_bits());
    assert_eq!(pos_zero, neg_zero);
}

#[test]
fn display_renders_primitive_forms() {
    assert_eq!(
        ConfigValue::Boolean(true).to_display_string().unwrap(),
        "true"
    );
    assert_eq!(
        ConfigValue::Boolean(false).to_display_string().unwrap(),
        "false"
    );
    assert_eq!(ConfigValue::Integer(0).to_display_string().unwrap(), "0");
    assert_eq!(
        ConfigValue::Integer(12345).to_display_string().unwrap(),
        "12345"
    );
    assert_eq!(
        ConfigValue::Integer(-42).to_display_string().unwrap(),
        "-42"
    );
    assert_eq!(
        ConfigValue::Integer(i64::MIN).to_display_string().unwrap(),
        "-9223372036854775808"
    );
    assert_eq!(
        ConfigValue::Integer(i64::MAX).to_display_string().unwrap(),
        "9223372036854775807"
    );
    assert_eq!(
        ConfigValue::String(String::from("raw text, unquoted"))
            .to_display_string()
            .unwrap(),
        "raw text, unquoted"
    );
}

#[test]
fn display_leaves_floats_to_the_caller() {
    let f = ConfigValue::Float((1.5f64).to_bits());
    assert!(f.to_display_string().is_none());
}
