use soft_plc::bus::SignalBus;
use soft_plc::error::PlcError;
use soft_plc::value::SignalValue;

#[test]
fn set_and_get_round_trip() {
    let mut bus = SignalBus::new();
    bus.set("motor_run", SignalValue::Bool(true)).unwrap();
    match bus.get("motor_run").unwrap() {
        SignalValue::Bool(b) => assert!(b),
        other => panic!("wrong shape: {:?}", other),
    }
}

#[test]
fn get_unknown_signal_fails() {
    let bus = SignalBus::new();
    match bus.get("nowhere") {
        Err(PlcError::SignalNotFound(name)) => assert_eq!(name, "nowhere"),
        other => panic!("expected SignalNotFound, got {:?}", other),
    }
    match bus.get_bool("nowhere") {
        Err(PlcError::SignalNotFound(name)) => assert_eq!(name, "nowhere"),
        other => panic!("expected SignalNotFound, got {:?}", other),
    }
}

#[test]
fn typed_reads_coerce() {
    let mut bus = SignalBus::new();
    bus.set("flag", SignalValue::Int(3)).unwrap();
    assert_eq!(bus.get_bool("flag").unwrap(), true);
    assert_eq!(bus.get_int("flag").unwrap(), 3);
    assert_eq!(bus.get_float("flag").unwrap(), 3.0f64.to_bits());
    bus.set("ratio", SignalValue::Float(2.5f64.to_bits())).unwrap();
    assert_eq!(bus.get_int("ratio").unwrap(), 2);
    assert_eq!(bus.get_float("ratio").unwrap(), 2.5f64.to_bits());
}

#[test]
fn typed_read_mismatch_reports_both_types() {
    let mut bus = SignalBus::new();
    bus.set("label", SignalValue::Str("on".to_string())).unwrap();
    match bus.get_bool("label") {
        Err(PlcError::TypeMismatch { expected, actual }) => {
            assert_eq!(expected, "bool");
            assert_eq!(actual, "string");
        },
        other => panic!("expected TypeMismatch, got {:?}", other),
    }
    bus.set("ratio", SignalValue::Float(1.5f64.to_bits())).unwrap();
    match bus.get_bool("ratio") {
        Err(PlcError::TypeMismatch { expected, actual }) => {
            assert_eq!(expected, "bool");
            assert_eq!(actual, "float");
        },
        other => panic!("expected TypeMismatch, got {:?}", other),
    }
}

#[test]
fn last_write_wins() {
    let mut bus = SignalBus::new();
    bus.set("x", SignalValue::Int(1)).unwrap();
    bus.set("x", SignalValue::Int(2)).unwrap();
    assert_eq!(bus.get_int("x").unwrap(), 2);
    // a write may change the shape; the bus does not enforce declared types
    bus.set("x", SignalValue::Str("t".to_string())).unwrap();
    assert!(bus.get_int("x").is_err());
}

#[test]
fn contains_and_clear() {
    let mut bus = SignalBus::new();
    assert!(!bus.contains("a"));
    bus.set("a", SignalValue::Bool(false)).unwrap();
    assert!(bus.contains("a"));
    bus.clear();
    assert!(!bus.contains("a"));
    assert!(bus.get("a").is_err());
}

#[test]
fn iter_snapshot_has_each_signal_once() {
    let mut bus = SignalBus::new();
    bus.set("a", SignalValue::Int(1)).unwrap();
    bus.set("b", SignalValue::Int(2)).unwrap();
    bus.set("c", SignalValue::Int(3)).unwrap();
    bus.set("b", SignalValue::Int(20)).unwrap();
    let snapshot = bus.iter();
    assert_eq!(snapshot.len(), 3);
    let mut names: Vec<String> = snapshot.iter().map(|e| e.0.clone()).collect();
    names.sort();
    assert_eq!(names, vec!["a".to_string(), "b".to_string(), "c".to_string()]);
    for (name, value) in &snapshot {
        let expected = match name.as_str() {
            "a" => 1,
            "b" => 20,
            "c" => 3,
            _ => panic!("unexpected key {}", name),
        };
        match value {
            SignalValue::Int(i) => assert_eq!(*i, expected),
            other => panic!("wrong shape: {:?}", other),
        }
    }
}

#[test]
fn error_messages_name_the_offender() {
    let e = PlcError::SignalNotFound("pump_index".to_string());
    assert_eq!(e.message(), "Signal not found: pump_index");
    let e = PlcError::TypeMismatch { expected: "int".to_string(), actual: "string".to_string() };
    assert_eq!(e.message(), "Invalid signal type: expected int, got string");
    let e = PlcError::ConfigError("SEQUENCER 'max' must be positive".to_string());
    assert_eq!(e.message(), "Configuration error: SEQUENCER 'max' must be positive");
    let e = PlcError::ExecutionError("boom".to_string());
    assert_eq!(e.message(), "Block execution error: boom");
}
