use soft_plc::blocks::{create_block, BlockConfig};
use soft_plc::config::ParamValue;
use soft_plc::error::PlcError;
use soft_plc::table::Table;

fn table(pairs: &[(&str, &str)]) -> Table<String> {
    let mut t = Table::new();
    for (k, v) in pairs {
        t.push(k.to_string(), v.to_string());
    }
    t
}

fn params(pairs: Vec<(&str, ParamValue)>) -> Table<ParamValue> {
    let mut t = Table::new();
    for (k, v) in pairs {
        t.push(k.to_string(), v);
    }
    t
}

fn config(
    ty: &str,
    inputs: &[(&str, &str)],
    outputs: &[(&str, &str)],
    p: Vec<(&str, ParamValue)>,
) -> BlockConfig {
    BlockConfig {
        name: format!("{}_block", ty.to_lowercase()),
        block_type: ty.to_string(),
        inputs: table(inputs),
        outputs: table(outputs),
        params: params(p),
    }
}

#[test]
fn factory_builds_every_block_type() {
    let cases = vec![
        config("AND", &[("in1", "a")], &[("out", "o")], vec![]),
        config("OR", &[("in1", "a")], &[("out", "o")], vec![]),
        config("NOT", &[("in", "a")], &[("out", "o")], vec![]),
        config("EQ", &[("in1", "a"), ("in2", "b")], &[("out", "o")], vec![]),
        config("GT", &[("in1", "a"), ("in2", "b")], &[("out", "o")], vec![]),
        config("LT", &[("in1", "a"), ("in2", "b")], &[("out", "o")], vec![]),
        config("R_TRIG", &[("clk", "a")], &[("q", "o")], vec![]),
        config("F_TRIG", &[("clk", "a")], &[("q", "o")], vec![]),
        config(
            "SR_LATCH",
            &[("set", "a"), ("reset", "b")],
            &[("q", "o")],
            vec![],
        ),
        config(
            "TON",
            &[("in", "a")],
            &[("q", "o")],
            vec![("preset_ms", ParamValue::Int(100))],
        ),
        config(
            "TOF",
            &[("in", "a")],
            &[("q", "o")],
            vec![("preset_ms", ParamValue::Int(100))],
        ),
        config(
            "TP",
            &[("in", "a")],
            &[("q", "o")],
            vec![("preset_ms", ParamValue::Int(100))],
        ),
        config(
            "COUNTER",
            &[("cu", "a"), ("cd", "b"), ("r", "c")],
            &[("cv", "o")],
            vec![],
        ),
        config(
            "SEQUENCER",
            &[("trigger", "a"), ("reset", "b")],
            &[("index", "o")],
            vec![("max", ParamValue::Int(3))],
        ),
        config("CONST", &[], &[("out", "o")], vec![("value", ParamValue::Bool(true))]),
    ];
    for c in cases {
        let expected_type = c.block_type.clone();
        let expected_name = c.name.clone();
        let block = create_block(&c).unwrap();
        assert_eq!(block.block_type(), expected_type);
        assert_eq!(block.name(), expected_name);
    }
}

#[test]
fn factory_rejects_unknown_types_by_name() {
    let c = config("NAND", &[("in1", "a")], &[("out", "o")], vec![]);
    match create_block(&c) {
        Err(PlcError::ConfigError(msg)) => {
            assert_eq!(msg, "Unknown block type: NAND")
        },
        other => panic!("expected ConfigError, got {:?}", other.map(|_| ())),
    }
}

#[test]
fn factory_propagates_missing_bindings() {
    // a representative of each block family's missing-binding error
    let cases = vec![
        (config("AND", &[], &[], vec![]), "AND block requires 'out' output"),
        (config("EQ", &[("in1", "a")], &[("out", "o")], vec![]), "EQ requires 'in2' input"),
        (config("R_TRIG", &[], &[("q", "o")], vec![]), "R_TRIG requires 'clk' input"),
        (
            config("SR_LATCH", &[("set", "a")], &[("q", "o")], vec![]),
            "SR_LATCH requires 'reset' input",
        ),
        (config("TON", &[("in", "a")], &[], vec![]), "TON requires 'q' output"),
        (
            config("COUNTER", &[("cu", "a"), ("cd", "b")], &[("cv", "o")], vec![]),
            "COUNTER requires 'r' input",
        ),
        (
            config("SEQUENCER", &[("trigger", "a"), ("reset", "b")], &[], vec![]),
            "SEQUENCER requires 'index' output",
        ),
        (config("CONST", &[], &[("out", "o")], vec![]), "CONST requires 'value' parameter"),
    ];
    for (c, expected) in cases {
        match create_block(&c) {
            Err(PlcError::ConfigError(msg)) => assert_eq!(msg, expected),
            other => panic!("expected ConfigError, got {:?}", other.map(|_| ())),
        }
    }
}
