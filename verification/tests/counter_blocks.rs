use soft_plc::blocks::counters::{Counter, Sequencer};
use soft_plc::bus::SignalBus;
use soft_plc::config::ParamValue;
use soft_plc::error::PlcError;
use soft_plc::table::Table;
use soft_plc::value::SignalValue;

fn table(pairs: &[(&str, &str)]) -> Table<String> {
    let mut t = Table::new();
    for (k, v) in pairs {
        t.push(k.to_string(), v.to_string());
    }
    t
}

fn int_param(name: &str, v: i64) -> Table<ParamValue> {
    let mut t = Table::new();
    t.push(name.to_string(), ParamValue::Int(v));
    t
}

fn pulse(bus: &mut SignalBus, counter: &mut Counter, signal: &str) {
    bus.set(signal, SignalValue::Bool(true)).unwrap();
    counter.execute(bus).unwrap();
    bus.set(signal, SignalValue::Bool(false)).unwrap();
    counter.execute(bus).unwrap();
}

#[test]
fn counter_counts_edges_and_reports_done() {
    let mut bus = SignalBus::new();
    bus.set("up", SignalValue::Bool(false)).unwrap();
    bus.set("down", SignalValue::Bool(false)).unwrap();
    bus.set("rst", SignalValue::Bool(false)).unwrap();
    let mut counter = Counter::new(
        "c".to_string(),
        &table(&[("cu", "up"), ("cd", "down"), ("r", "rst")]),
        &table(&[("cv", "count"), ("q", "done")]),
        &int_param("preset", 2),
    )
    .unwrap();

    counter.execute(&mut bus).unwrap();
    assert_eq!(bus.get_int("count").unwrap(), 0);
    assert_eq!(bus.get_bool("done").unwrap(), false);

    pulse(&mut bus, &mut counter, "up");
    assert_eq!(bus.get_int("count").unwrap(), 1);
    assert_eq!(bus.get_bool("done").unwrap(), false);

    pulse(&mut bus, &mut counter, "up");
    assert_eq!(bus.get_int("count").unwrap(), 2);
    assert_eq!(bus.get_bool("done").unwrap(), true);

    // a held-high input is one edge, not one count per scan
    bus.set("up", SignalValue::Bool(true)).unwrap();
    counter.execute(&mut bus).unwrap();
    counter.execute(&mut bus).unwrap();
    assert_eq!(bus.get_int("count").unwrap(), 3);
    bus.set("up", SignalValue::Bool(false)).unwrap();
    counter.execute(&mut bus).unwrap();

    pulse(&mut bus, &mut counter, "down");
    assert_eq!(bus.get_int("count").unwrap(), 2);

    bus.set("rst", SignalValue::Bool(true)).unwrap();
    counter.execute(&mut bus).unwrap();
    assert_eq!(bus.get_int("count").unwrap(), 0);
}

#[test]
fn counter_runs_below_zero() {
    let mut bus = SignalBus::new();
    bus.set("up", SignalValue::Bool(false)).unwrap();
    bus.set("down", SignalValue::Bool(false)).unwrap();
    bus.set("rst", SignalValue::Bool(false)).unwrap();
    bus.set("pv", SignalValue::Int(i32::MAX)).unwrap();
    let mut counter = Counter::new(
        "c".to_string(),
        &table(&[("cu", "up"), ("cd", "down"), ("r", "rst"), ("pv", "pv")]),
        &table(&[("cv", "count")]),
        &Table::new(),
    )
    .unwrap();

    // the count is signed and runs below zero freely; at the bounds of
    // `Int32` it wraps (two's complement), per the counter's contract
    pulse(&mut bus, &mut counter, "down");
    assert_eq!(bus.get_int("count").unwrap(), -1);
    pulse(&mut bus, &mut counter, "down");
    assert_eq!(bus.get_int("count").unwrap(), -2);
    pulse(&mut bus, &mut counter, "up");
    pulse(&mut bus, &mut counter, "up");
    assert_eq!(bus.get_int("count").unwrap(), 0);
}

#[test]
fn counter_dynamic_preset_follows_pv() {
    let mut bus = SignalBus::new();
    bus.set("up", SignalValue::Bool(false)).unwrap();
    bus.set("down", SignalValue::Bool(false)).unwrap();
    bus.set("rst", SignalValue::Bool(false)).unwrap();
    bus.set("pv", SignalValue::Int(1)).unwrap();
    let mut counter = Counter::new(
        "c".to_string(),
        &table(&[("cu", "up"), ("cd", "down"), ("r", "rst"), ("pv", "pv")]),
        &table(&[("cv", "count"), ("q", "done")]),
        &int_param("preset", 100),
    )
    .unwrap();

    pulse(&mut bus, &mut counter, "up");
    assert_eq!(bus.get_int("count").unwrap(), 1);
    // the preset came from pv, not from the configured 100
    assert_eq!(bus.get_bool("done").unwrap(), true);
}

#[test]
fn sequencer_walks_its_range_and_wraps() {
    let mut bus = SignalBus::new();
    bus.set("trigger", SignalValue::Bool(false)).unwrap();
    bus.set("reset", SignalValue::Bool(false)).unwrap();
    let mut seq = Sequencer::new(
        "s".to_string(),
        &table(&[("trigger", "trigger"), ("reset", "reset")]),
        &table(&[("index", "index")]),
        &int_param("max", 3),
    )
    .unwrap();

    seq.execute(&mut bus).unwrap();
    assert_eq!(bus.get_int("index").unwrap(), 0);

    // six full trigger cycles: 1, 2, 0, 1, 2, 0
    let expected = [1, 2, 0, 1, 2, 0];
    for &want in &expected {
        bus.set("trigger", SignalValue::Bool(true)).unwrap();
        seq.execute(&mut bus).unwrap();
        bus.set("trigger", SignalValue::Bool(false)).unwrap();
        seq.execute(&mut bus).unwrap();
        assert_eq!(bus.get_int("index").unwrap(), want);
    }

    bus.set("reset", SignalValue::Bool(true)).unwrap();
    seq.execute(&mut bus).unwrap();
    assert_eq!(bus.get_int("index").unwrap(), 0);
}

#[test]
fn sequencer_with_bound_one_stays_at_zero() {
    let mut bus = SignalBus::new();
    bus.set("trigger", SignalValue::Bool(false)).unwrap();
    bus.set("reset", SignalValue::Bool(false)).unwrap();
    let mut seq = Sequencer::new(
        "s".to_string(),
        &table(&[("trigger", "trigger"), ("reset", "reset")]),
        &table(&[("index", "index")]),
        &int_param("max", 1),
    )
    .unwrap();
    for _ in 0..4 {
        bus.set("trigger", SignalValue::Bool(true)).unwrap();
        seq.execute(&mut bus).unwrap();
        assert_eq!(bus.get_int("index").unwrap(), 0);
        bus.set("trigger", SignalValue::Bool(false)).unwrap();
        seq.execute(&mut bus).unwrap();
        assert_eq!(bus.get_int("index").unwrap(), 0);
    }
}

#[test]
fn sequencer_requires_a_positive_bound() {
    let r = Sequencer::new(
        "s".to_string(),
        &table(&[("trigger", "t"), ("reset", "r")]),
        &table(&[("index", "i")]),
        &int_param("max", 0),
    );
    match r {
        Err(PlcError::ConfigError(msg)) => {
            assert_eq!(msg, "SEQUENCER 'max' must be positive")
        },
        other => panic!("expected ConfigError, got {:?}", other.map(|_| ())),
    }
    let r = Sequencer::new(
        "s".to_string(),
        &table(&[("trigger", "t"), ("reset", "r")]),
        &table(&[("index", "i")]),
        &Table::new(),
    );
    match r {
        Err(PlcError::ConfigError(msg)) => {
            assert_eq!(msg, "SEQUENCER requires 'max' parameter")
        },
        other => panic!("expected ConfigError, got {:?}", other.map(|_| ())),
    }
}
