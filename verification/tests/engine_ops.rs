use soft_plc::blocks::BlockConfig;
use soft_plc::config::{ParamValue, PlcConfig, SignalConfig};
use soft_plc::engine::ScanEngine;
use soft_plc::error::PlcError;
use soft_plc::table::Table;
use soft_plc::value::SignalValue;

fn table(pairs: &[(&str, &str)]) -> Table<String> {
    let mut t = Table::new();
    for (k, v) in pairs {
        t.push(k.to_string(), v.to_string());
    }
    t
}

fn signal(name: &str, ty: &str, initial: Option<ParamValue>) -> SignalConfig {
    SignalConfig { name: name.to_string(), signal_type: ty.to_string(), initial }
}

fn not_gate_config() -> PlcConfig {
    PlcConfig {
        signals: vec![
            signal("test_input", "bool", Some(ParamValue::Bool(false))),
            signal("test_output", "bool", None),
        ],
        blocks: vec![BlockConfig {
            name: "inverter".to_string(),
            block_type: "NOT".to_string(),
            inputs: table(&[("in", "test_input")]),
            outputs: table(&[("out", "test_output")]),
            params: Table::new(),
        }],
        scan_time_ms: 50,
    }
}

#[test]
fn not_gate_program_runs() {
    let mut engine = ScanEngine::new(not_gate_config()).unwrap();
    engine.execute_blocks().unwrap();
    assert_eq!(engine.signal_bus().get_bool("test_output").unwrap(), true);
    engine.set_signal("test_input", SignalValue::Bool(true)).unwrap();
    engine.execute_blocks().unwrap();
    assert_eq!(engine.signal_bus().get_bool("test_output").unwrap(), false);
}

#[test]
fn signal_defaults_per_declared_type() {
    let config = PlcConfig {
        signals: vec![
            signal("b", "bool", None),
            signal("i", "int", None),
            signal("f", "float", None),
            signal("s", "string", None),
            signal("i2", "int", Some(ParamValue::Int(7))),
        ],
        blocks: vec![],
        scan_time_ms: 100,
    };
    let engine = ScanEngine::new(config).unwrap();
    let bus = engine.signal_bus();
    assert_eq!(bus.get_bool("b").unwrap(), false);
    assert_eq!(bus.get_int("i").unwrap(), 0);
    assert_eq!(bus.get_float("f").unwrap(), 0.0f64.to_bits());
    match bus.get("s").unwrap() {
        SignalValue::Str(s) => assert_eq!(s, ""),
        other => panic!("wrong shape: {:?}", other),
    }
    assert_eq!(bus.get_int("i2").unwrap(), 7);
}

#[test]
fn unknown_signal_type_fails_construction() {
    let config = PlcConfig {
        signals: vec![signal("x", "decimal", None)],
        blocks: vec![],
        scan_time_ms: 100,
    };
    match ScanEngine::new(config) {
        Err(PlcError::ConfigError(msg)) => assert_eq!(msg, "Unknown signal type: decimal"),
        other => panic!("expected ConfigError, got {:?}", other.map(|_| ())),
    }
}

#[test]
fn unknown_block_type_fails_construction() {
    let config = PlcConfig {
        signals: vec![],
        blocks: vec![BlockConfig {
            name: "mystery".to_string(),
            block_type: "XOR".to_string(),
            inputs: Table::new(),
            outputs: Table::new(),
            params: Table::new(),
        }],
        scan_time_ms: 100,
    };
    match ScanEngine::new(config) {
        Err(PlcError::ConfigError(msg)) => assert_eq!(msg, "Unknown block type: XOR"),
        other => panic!("expected ConfigError, got {:?}", other.map(|_| ())),
    }
}

#[test]
fn scan_aborts_at_the_first_failing_block() {
    // the first block reads a missing signal; the second would write,
    // but the scan stops before it
    let config = PlcConfig {
        signals: vec![signal("present", "bool", Some(ParamValue::Bool(true))), signal(
            "late_out",
            "bool",
            None,
        )],
        blocks: vec![
            BlockConfig {
                name: "broken".to_string(),
                block_type: "NOT".to_string(),
                inputs: table(&[("in", "missing")]),
                outputs: table(&[("out", "never")]),
                params: Table::new(),
            },
            BlockConfig {
                name: "after".to_string(),
                block_type: "NOT".to_string(),
                inputs: table(&[("in", "present")]),
                outputs: table(&[("out", "late_out")]),
                params: Table::new(),
            },
        ],
        scan_time_ms: 100,
    };
    let mut engine = ScanEngine::new(config).unwrap();
    match engine.execute_blocks() {
        Err(PlcError::SignalNotFound(name)) => assert_eq!(name, "missing"),
        other => panic!("expected SignalNotFound, got {:?}", other),
    }
    // the second block never ran: its output kept the declared default
    assert_eq!(engine.signal_bus().get_bool("late_out").unwrap(), false);
}

#[test]
fn scan_counter_counts_recorded_scans() {
    let mut engine = ScanEngine::new(not_gate_config()).unwrap();
    assert_eq!(engine.scan_count(), 0);
    assert_eq!(engine.scan_time_ms(), 50);
    for _ in 0..3 {
        engine.execute_blocks().unwrap();
        engine.record_scan();
    }
    assert_eq!(engine.scan_count(), 3);
}

#[test]
fn dump_signals_is_a_full_snapshot() {
    let engine = ScanEngine::new(not_gate_config()).unwrap();
    let snapshot = engine.dump_signals();
    assert_eq!(snapshot.len(), 2);
    let mut names: Vec<String> = snapshot.iter().map(|e| e.0.clone()).collect();
    names.sort();
    assert_eq!(names, vec!["test_input".to_string(), "test_output".to_string()]);
}

#[test]
fn block_factory_reports_names_and_kinds() {
    let config = BlockConfig {
        name: "inverter".to_string(),
        block_type: "NOT".to_string(),
        inputs: table(&[("in", "a")]),
        outputs: table(&[("out", "b")]),
        params: Table::new(),
    };
    let block = soft_plc::blocks::create_block(&config).unwrap();
    assert_eq!(block.name(), "inverter");
    assert_eq!(block.block_type(), "NOT");
}

#[test]
fn ton_program_with_simulated_clock() {
    let config = PlcConfig {
        signals: vec![
            signal("timer_input", "bool", Some(ParamValue::Bool(false))),
            signal("timer_done", "bool", Some(ParamValue::Bool(false))),
        ],
        blocks: vec![BlockConfig {
            name: "test_timer".to_string(),
            block_type: "TON".to_string(),
            inputs: table(&[("in", "timer_input")]),
            outputs: table(&[("q", "timer_done")]),
            params: {
                let mut p = Table::new();
                p.push("preset_ms".to_string(), ParamValue::Int(200));
                p
            },
        }],
        scan_time_ms: 50,
    };
    let mut engine = ScanEngine::new(config).unwrap();
    engine.set_signal("timer_input", SignalValue::Bool(true)).unwrap();
    // scans within the first 100 ms: not done
    engine.execute_blocks_at(0).unwrap();
    engine.execute_blocks_at(50).unwrap();
    engine.execute_blocks_at(100).unwrap();
    assert_eq!(engine.signal_bus().get_bool("timer_done").unwrap(), false);
    // a scan at 250 ms: done
    engine.execute_blocks_at(250).unwrap();
    assert_eq!(engine.signal_bus().get_bool("timer_done").unwrap(), true);
    // the input drops: the next scan clears the output
    engine.set_signal("timer_input", SignalValue::Bool(false)).unwrap();
    engine.execute_blocks_at(300).unwrap();
    assert_eq!(engine.signal_bus().get_bool("timer_done").unwrap(), false);
}
