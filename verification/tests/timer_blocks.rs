use soft_plc::blocks::timers::{TOF, TON, TP};
use soft_plc::bus::SignalBus;
use soft_plc::config::ParamValue;
use soft_plc::error::PlcError;
use soft_plc::table::Table;
use soft_plc::value::SignalValue;

fn table(pairs: &[(&str, &str)]) -> Table<String> {
    let mut t = Table::new();
    for (k, v) in pairs {
        t.push(k.to_string(), v.to_string());
    }
    t
}

fn preset(ms: i64) -> Table<ParamValue> {
    let mut t = Table::new();
    t.push("preset_ms".to_string(), ParamValue::Int(ms));
    t
}

#[test]
fn ton_turns_on_after_preset() {
    let mut bus = SignalBus::new();
    bus.set("in", SignalValue::Bool(false)).unwrap();
    let mut ton = TON::new(
        "t".to_string(),
        &table(&[("in", "in")]),
        &table(&[("q", "q"), ("et", "et")]),
        &preset(200),
    )
    .unwrap();

    ton.execute(&mut bus, 0).unwrap();
    assert_eq!(bus.get_bool("q").unwrap(), false);

    bus.set("in", SignalValue::Bool(true)).unwrap();
    ton.execute(&mut bus, 10).unwrap(); // rising edge: timing starts at 10
    assert_eq!(bus.get_bool("q").unwrap(), false);
    ton.execute(&mut bus, 110).unwrap(); // 100 ms elapsed
    assert_eq!(bus.get_bool("q").unwrap(), false);
    assert_eq!(bus.get_int("et").unwrap(), 100);
    ton.execute(&mut bus, 260).unwrap(); // 250 ms elapsed
    assert_eq!(bus.get_bool("q").unwrap(), true);
    assert_eq!(bus.get_int("et").unwrap(), 250);

    // dropping the input clears the output at once
    bus.set("in", SignalValue::Bool(false)).unwrap();
    ton.execute(&mut bus, 270).unwrap();
    assert_eq!(bus.get_bool("q").unwrap(), false);
    assert_eq!(bus.get_int("et").unwrap(), 0);
}

#[test]
fn ton_missing_preset_is_a_config_error() {
    let r = TON::new(
        "t".to_string(),
        &table(&[("in", "in")]),
        &table(&[("q", "q")]),
        &Table::new(),
    );
    match r {
        Err(PlcError::ConfigError(msg)) => {
            assert_eq!(msg, "TON requires 'preset_ms' parameter")
        },
        other => panic!("expected ConfigError, got {:?}", other.map(|_| ())),
    }
    // a negative preset is not a well-shaped duration either
    let r = TON::new(
        "t".to_string(),
        &table(&[("in", "in")]),
        &table(&[("q", "q")]),
        &preset(-5),
    );
    assert!(r.is_err());
}

#[test]
fn tof_holds_through_the_off_delay() {
    let mut bus = SignalBus::new();
    bus.set("in", SignalValue::Bool(true)).unwrap();
    let mut tof = TOF::new(
        "t".to_string(),
        &table(&[("in", "in")]),
        &table(&[("q", "q")]),
        &preset(100),
    )
    .unwrap();

    tof.execute(&mut bus, 0).unwrap();
    assert_eq!(bus.get_bool("q").unwrap(), true);

    bus.set("in", SignalValue::Bool(false)).unwrap();
    tof.execute(&mut bus, 10).unwrap(); // falling edge: delay starts
    assert_eq!(bus.get_bool("q").unwrap(), true);
    tof.execute(&mut bus, 60).unwrap(); // 50 ms into the delay
    assert_eq!(bus.get_bool("q").unwrap(), true);
    tof.execute(&mut bus, 120).unwrap(); // 110 ms: delay expired
    assert_eq!(bus.get_bool("q").unwrap(), false);

    bus.set("in", SignalValue::Bool(true)).unwrap();
    tof.execute(&mut bus, 130).unwrap();
    assert_eq!(bus.get_bool("q").unwrap(), true);
}

#[test]
fn tof_first_scan_low_is_not_an_edge() {
    let mut bus = SignalBus::new();
    bus.set("in", SignalValue::Bool(false)).unwrap();
    let mut tof = TOF::new(
        "t".to_string(),
        &table(&[("in", "in")]),
        &table(&[("q", "q")]),
        &preset(100),
    )
    .unwrap();
    // the remembered input level starts true, so this is a falling edge
    // and the output holds through the delay
    tof.execute(&mut bus, 0).unwrap();
    assert_eq!(bus.get_bool("q").unwrap(), true);
    tof.execute(&mut bus, 150).unwrap();
    assert_eq!(bus.get_bool("q").unwrap(), false);
}

#[test]
fn tp_pulses_for_the_preset_and_ignores_retriggers() {
    let mut bus = SignalBus::new();
    bus.set("in", SignalValue::Bool(false)).unwrap();
    let mut tp = TP::new(
        "t".to_string(),
        &table(&[("in", "in")]),
        &table(&[("q", "q")]),
        &preset(100),
    )
    .unwrap();

    tp.execute(&mut bus, 0).unwrap();
    assert_eq!(bus.get_bool("q").unwrap(), false);

    bus.set("in", SignalValue::Bool(true)).unwrap();
    tp.execute(&mut bus, 10).unwrap(); // pulse starts
    assert_eq!(bus.get_bool("q").unwrap(), true);

    // the pulse completes even though the input returns to false
    bus.set("in", SignalValue::Bool(false)).unwrap();
    tp.execute(&mut bus, 50).unwrap();
    assert_eq!(bus.get_bool("q").unwrap(), true);

    // a retrigger during the active pulse is ignored: the pulse still
    // ends at its original deadline
    bus.set("in", SignalValue::Bool(true)).unwrap();
    tp.execute(&mut bus, 60).unwrap();
    assert_eq!(bus.get_bool("q").unwrap(), true);
    bus.set("in", SignalValue::Bool(false)).unwrap();
    tp.execute(&mut bus, 80).unwrap();
    assert_eq!(bus.get_bool("q").unwrap(), true);
    tp.execute(&mut bus, 115).unwrap(); // 105 ms after the start
    assert_eq!(bus.get_bool("q").unwrap(), false);

    // once idle, the next rising edge starts a fresh pulse
    bus.set("in", SignalValue::Bool(true)).unwrap();
    tp.execute(&mut bus, 130).unwrap();
    assert_eq!(bus.get_bool("q").unwrap(), true);
    tp.execute(&mut bus, 240).unwrap();
    assert_eq!(bus.get_bool("q").unwrap(), false);
}
