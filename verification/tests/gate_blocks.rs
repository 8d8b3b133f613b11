use soft_plc::blocks::comparison::{EqBlock, GtBlock, LtBlock};
use soft_plc::blocks::const_block::ConstBlock;
use soft_plc::blocks::logic::{AndBlock, NotBlock, OrBlock};
use soft_plc::blocks::triggers::{FTrig, RTrig, SRLatch};
use soft_plc::bus::SignalBus;
use soft_plc::config::ParamValue;
use soft_plc::error::PlcError;
use soft_plc::table::Table;
use soft_plc::value::SignalValue;

fn table(pairs: &[(&str, &str)]) -> Table<String> {
    let mut t = Table::new();
    for (k, v) in pairs {
        t.push(k.to_string(), v.to_string());
    }
    t
}

#[test]
fn not_gate_inverts() {
    let mut bus = SignalBus::new();
    bus.set("in", SignalValue::Bool(false)).unwrap();
    let mut not = NotBlock::new(
        "n1".to_string(),
        &table(&[("in", "in")]),
        &table(&[("out", "out")]),
    )
    .unwrap();
    not.execute(&mut bus).unwrap();
    assert_eq!(bus.get_bool("out").unwrap(), true);
    bus.set("in", SignalValue::Bool(true)).unwrap();
    not.execute(&mut bus).unwrap();
    assert_eq!(bus.get_bool("out").unwrap(), false);
}

#[test]
fn and_or_gates_reduce_their_inputs() {
    let mut bus = SignalBus::new();
    bus.set("a", SignalValue::Bool(true)).unwrap();
    bus.set("b", SignalValue::Bool(true)).unwrap();
    bus.set("c", SignalValue::Bool(false)).unwrap();
    let inputs = table(&[("in1", "a"), ("in2", "b"), ("in3", "c")]);
    let mut and = AndBlock::new("g1".to_string(), &inputs, &table(&[("out", "all")])).unwrap();
    let mut or = OrBlock::new("g2".to_string(), &inputs, &table(&[("out", "any")])).unwrap();
    and.execute(&mut bus).unwrap();
    or.execute(&mut bus).unwrap();
    assert_eq!(bus.get_bool("all").unwrap(), false);
    assert_eq!(bus.get_bool("any").unwrap(), true);
    bus.set("c", SignalValue::Bool(true)).unwrap();
    and.execute(&mut bus).unwrap();
    assert_eq!(bus.get_bool("all").unwrap(), true);
}

#[test]
fn and_or_with_zero_inputs_yield_identities() {
    let mut bus = SignalBus::new();
    let empty = table(&[]);
    let mut and = AndBlock::new("g1".to_string(), &empty, &table(&[("out", "all")])).unwrap();
    let mut or = OrBlock::new("g2".to_string(), &empty, &table(&[("out", "any")])).unwrap();
    and.execute(&mut bus).unwrap();
    or.execute(&mut bus).unwrap();
    assert_eq!(bus.get_bool("all").unwrap(), true);
    assert_eq!(bus.get_bool("any").unwrap(), false);
}

#[test]
fn gate_construction_requires_out() {
    let r = AndBlock::new("g".to_string(), &table(&[]), &table(&[]));
    match r {
        Err(PlcError::ConfigError(msg)) => assert_eq!(msg, "AND block requires 'out' output"),
        other => panic!("expected ConfigError, got {:?}", other.map(|_| ())),
    }
    let r = NotBlock::new("g".to_string(), &table(&[]), &table(&[("out", "o")]));
    match r {
        Err(PlcError::ConfigError(msg)) => assert_eq!(msg, "NOT block requires 'in' input"),
        other => panic!("expected ConfigError, got {:?}", other.map(|_| ())),
    }
}

#[test]
fn eq_compares_like_types_only() {
    let mut bus = SignalBus::new();
    let inputs = table(&[("in1", "x"), ("in2", "y")]);
    let outputs = table(&[("out", "same")]);
    let mut eq = EqBlock::new("e".to_string(), &inputs, &outputs).unwrap();

    bus.set("x", SignalValue::Int(5)).unwrap();
    bus.set("y", SignalValue::Int(5)).unwrap();
    eq.execute(&mut bus).unwrap();
    assert_eq!(bus.get_bool("same").unwrap(), true);

    bus.set("y", SignalValue::Int(6)).unwrap();
    eq.execute(&mut bus).unwrap();
    assert_eq!(bus.get_bool("same").unwrap(), false);

    // mixed ground types compare unequal, never in error
    bus.set("y", SignalValue::Bool(true)).unwrap();
    eq.execute(&mut bus).unwrap();
    assert_eq!(bus.get_bool("same").unwrap(), false);

    bus.set("x", SignalValue::Float(50.0f64.to_bits())).unwrap();
    bus.set("y", SignalValue::Float(50.0f64.to_bits())).unwrap();
    eq.execute(&mut bus).unwrap();
    assert_eq!(bus.get_bool("same").unwrap(), true);

    bus.set("x", SignalValue::Str("abc".to_string())).unwrap();
    bus.set("y", SignalValue::Str("abc".to_string())).unwrap();
    eq.execute(&mut bus).unwrap();
    assert_eq!(bus.get_bool("same").unwrap(), true);
}

#[test]
fn ordering_blocks_need_numeric_operands() {
    let mut bus = SignalBus::new();
    let inputs = table(&[("in1", "x"), ("in2", "y")]);
    let mut gt = GtBlock::new("g".to_string(), &inputs, &table(&[("out", "above")])).unwrap();
    let mut lt = LtBlock::new("l".to_string(), &inputs, &table(&[("out", "below")])).unwrap();

    bus.set("x", SignalValue::Int(7)).unwrap();
    bus.set("y", SignalValue::Int(3)).unwrap();
    gt.execute(&mut bus).unwrap();
    lt.execute(&mut bus).unwrap();
    assert_eq!(bus.get_bool("above").unwrap(), true);
    assert_eq!(bus.get_bool("below").unwrap(), false);

    bus.set("x", SignalValue::Float(45.0f64.to_bits())).unwrap();
    bus.set("y", SignalValue::Float(50.0f64.to_bits())).unwrap();
    gt.execute(&mut bus).unwrap();
    lt.execute(&mut bus).unwrap();
    assert_eq!(bus.get_bool("above").unwrap(), false);
    assert_eq!(bus.get_bool("below").unwrap(), true);

    // int against float is a type mismatch
    bus.set("y", SignalValue::Int(50)).unwrap();
    match gt.execute(&mut bus) {
        Err(PlcError::TypeMismatch { expected, actual }) => {
            assert_eq!(expected, "numeric");
            assert_eq!(actual, "non-numeric");
        },
        other => panic!("expected TypeMismatch, got {:?}", other),
    }
}

#[test]
fn const_block_drives_its_literal() {
    let mut bus = SignalBus::new();
    let mut params = Table::new();
    params.push("value".to_string(), ParamValue::Int(42));
    let mut c = ConstBlock::new(
        "k".to_string(),
        &table(&[("out", "answer")]),
        &params,
    )
    .unwrap();
    c.execute(&mut bus).unwrap();
    assert_eq!(bus.get_int("answer").unwrap(), 42);

    let mut params = Table::new();
    params.push("value".to_string(), ParamValue::Float(50.0f64.to_bits()));
    let mut c = ConstBlock::new(
        "k2".to_string(),
        &table(&[("out", "threshold")]),
        &params,
    )
    .unwrap();
    c.execute(&mut bus).unwrap();
    assert_eq!(bus.get_float("threshold").unwrap(), 50.0f64.to_bits());
}

#[test]
fn rising_trigger_pulses_once_per_edge() {
    let mut bus = SignalBus::new();
    bus.set("clk", SignalValue::Bool(false)).unwrap();
    let mut trig = RTrig::new(
        "t".to_string(),
        &table(&[("clk", "clk")]),
        &table(&[("q", "q")]),
    )
    .unwrap();
    trig.execute(&mut bus).unwrap();
    assert_eq!(bus.get_bool("q").unwrap(), false);
    bus.set("clk", SignalValue::Bool(true)).unwrap();
    trig.execute(&mut bus).unwrap();
    assert_eq!(bus.get_bool("q").unwrap(), true);
    trig.execute(&mut bus).unwrap();
    assert_eq!(bus.get_bool("q").unwrap(), false);
    bus.set("clk", SignalValue::Bool(false)).unwrap();
    trig.execute(&mut bus).unwrap();
    assert_eq!(bus.get_bool("q").unwrap(), false);
}

#[test]
fn falling_trigger_pulses_once_per_edge() {
    let mut bus = SignalBus::new();
    bus.set("clk", SignalValue::Bool(true)).unwrap();
    let mut trig = FTrig::new(
        "t".to_string(),
        &table(&[("clk", "clk")]),
        &table(&[("q", "q")]),
    )
    .unwrap();
    trig.execute(&mut bus).unwrap();
    assert_eq!(bus.get_bool("q").unwrap(), false);
    bus.set("clk", SignalValue::Bool(false)).unwrap();
    trig.execute(&mut bus).unwrap();
    assert_eq!(bus.get_bool("q").unwrap(), true);
    trig.execute(&mut bus).unwrap();
    assert_eq!(bus.get_bool("q").unwrap(), false);
}

#[test]
fn sr_latch_holds_and_reset_wins() {
    let mut bus = SignalBus::new();
    let mut latch = SRLatch::new(
        "l".to_string(),
        &table(&[("set", "set"), ("reset", "reset")]),
        &table(&[("q", "q")]),
    )
    .unwrap();

    bus.set("set", SignalValue::Bool(true)).unwrap();
    bus.set("reset", SignalValue::Bool(false)).unwrap();
    latch.execute(&mut bus).unwrap();
    assert_eq!(bus.get_bool("q").unwrap(), true);

    // reset has priority over a simultaneous set
    bus.set("set", SignalValue::Bool(true)).unwrap();
    bus.set("reset", SignalValue::Bool(true)).unwrap();
    latch.execute(&mut bus).unwrap();
    assert_eq!(bus.get_bool("q").unwrap(), false);

    // with neither asserted the latch holds the cleared state
    bus.set("set", SignalValue::Bool(false)).unwrap();
    bus.set("reset", SignalValue::Bool(false)).unwrap();
    latch.execute(&mut bus).unwrap();
    assert_eq!(bus.get_bool("q").unwrap(), false);
}
