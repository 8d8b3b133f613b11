use soft_plc::blocks::BlockConfig;
use soft_plc::config::{ParamValue, PlcConfig, SignalConfig};
use soft_plc::engine::ScanEngine;
use soft_plc::table::Table;
use soft_plc::value::SignalValue;

fn table(pairs: &[(&str, &str)]) -> Table<String> {
    let mut t = Table::new();
    for (k, v) in pairs {
        t.push(k.to_string(), v.to_string());
    }
    t
}

fn signal(name: &str, ty: &str, initial: Option<ParamValue>) -> SignalConfig {
    SignalConfig { name: name.to_string(), signal_type: ty.to_string(), initial }
}

fn block(
    name: &str,
    ty: &str,
    inputs: &[(&str, &str)],
    outputs: &[(&str, &str)],
    params: Vec<(&str, ParamValue)>,
) -> BlockConfig {
    let mut p = Table::new();
    for (k, v) in params {
        p.push(k.to_string(), v);
    }
    BlockConfig {
        name: name.to_string(),
        block_type: ty.to_string(),
        inputs: table(inputs),
        outputs: table(outputs),
        params: p,
    }
}

/// Pressure-controlled rotation through five pumps: a low-pressure
/// comparison feeds an edge trigger and a sequencer; five comparisons
/// decode the index into pump run commands, gated by the manual override.
fn pump_alternation_config() -> PlcConfig {
    let mut signals = vec![
        signal("pressure", "float", Some(ParamValue::Float(55.0f64.to_bits()))),
        signal("pressure_threshold", "float", None),
        signal("low_pressure", "bool", None),
        signal("advance_pulse", "bool", None),
        signal("system_reset", "bool", None),
        signal("manual_override", "bool", None),
        signal("pump_index", "int", None),
        signal("auto_mode", "bool", None),
    ];
    for i in 0..5 {
        signals.push(signal(&format!("idx_{}", i), "int", None));
        signals.push(signal(&format!("pump{}_sel", i + 1), "bool", None));
        signals.push(signal(&format!("pump{}_run", i + 1), "bool", None));
    }

    let mut blocks = vec![block(
        "threshold_const",
        "CONST",
        &[],
        &[("out", "pressure_threshold")],
        vec![("value", ParamValue::Float(50.0f64.to_bits()))],
    )];
    for i in 0..5i64 {
        blocks.push(block(
            &format!("idx_const_{}", i),
            "CONST",
            &[],
            &[("out", &format!("idx_{}", i))],
            vec![("value", ParamValue::Int(i))],
        ));
    }
    blocks.push(block(
        "low_pressure_cmp",
        "LT",
        &[("in1", "pressure"), ("in2", "pressure_threshold")],
        &[("out", "low_pressure")],
        vec![],
    ));
    blocks.push(block(
        "pump_advance",
        "F_TRIG",
        &[("clk", "low_pressure")],
        &[("q", "advance_pulse")],
        vec![],
    ));
    blocks.push(block(
        "pump_selector",
        "SEQUENCER",
        &[("trigger", "advance_pulse"), ("reset", "system_reset")],
        &[("index", "pump_index")],
        vec![("max", ParamValue::Int(5))],
    ));
    for i in 0..5 {
        blocks.push(block(
            &format!("pump{}_match", i + 1),
            "EQ",
            &[("in1", "pump_index"), ("in2", &format!("idx_{}", i))],
            &[("out", &format!("pump{}_sel", i + 1))],
            vec![],
        ));
    }
    blocks.push(block(
        "auto_gate",
        "NOT",
        &[("in", "manual_override")],
        &[("out", "auto_mode")],
        vec![],
    ));
    for i in 0..5 {
        blocks.push(block(
            &format!("pump{}_gate", i + 1),
            "AND",
            &[
                ("in1", &format!("pump{}_sel", i + 1)),
                ("in2", "low_pressure"),
                ("in3", "auto_mode"),
            ],
            &[("out", &format!("pump{}_run", i + 1))],
            vec![],
        ));
    }

    PlcConfig { signals, blocks, scan_time_ms: 100 }
}

#[test]
fn test_pump_alternation() {
    let mut engine = ScanEngine::new(pump_alternation_config()).unwrap();

    // initial state: pressure is OK (55.0)
    engine.execute_blocks().unwrap();
    assert_eq!(engine.signal_bus().get_bool("pump1_run").unwrap(), false);
    assert_eq!(engine.signal_bus().get_int("pump_index").unwrap(), 0);

    // pressure drops below the start setpoint
    engine.set_signal("pressure", SignalValue::Float(45.0f64.to_bits())).unwrap();
    engine.execute_blocks().unwrap();
    engine.execute_blocks().unwrap(); // two scans for edge detection

    // pump 1 starts (index 0)
    assert_eq!(engine.signal_bus().get_bool("pump1_run").unwrap(), true);
    assert_eq!(engine.signal_bus().get_bool("pump2_run").unwrap(), false);
    assert_eq!(engine.signal_bus().get_int("pump_index").unwrap(), 0);

    // pressure recovers
    engine.set_signal("pressure", SignalValue::Float(65.0f64.to_bits())).unwrap();
    engine.execute_blocks().unwrap();
    engine.execute_blocks().unwrap();
    assert_eq!(engine.signal_bus().get_bool("pump1_run").unwrap(), false);

    // second pressure drop starts pump 2
    engine.set_signal("pressure", SignalValue::Float(45.0f64.to_bits())).unwrap();
    engine.execute_blocks().unwrap();
    engine.execute_blocks().unwrap();
    assert_eq!(engine.signal_bus().get_bool("pump1_run").unwrap(), false);
    assert_eq!(engine.signal_bus().get_bool("pump2_run").unwrap(), true);
    assert_eq!(engine.signal_bus().get_int("pump_index").unwrap(), 1);

    engine.set_signal("pressure", SignalValue::Float(65.0f64.to_bits())).unwrap();
    engine.execute_blocks().unwrap();
    engine.execute_blocks().unwrap();

    // cycling through the remaining pumps
    for expected_index in 2..5 {
        engine.set_signal("pressure", SignalValue::Float(45.0f64.to_bits())).unwrap();
        engine.execute_blocks().unwrap();
        engine.execute_blocks().unwrap();
        assert_eq!(engine.signal_bus().get_int("pump_index").unwrap(), expected_index);
        engine.set_signal("pressure", SignalValue::Float(65.0f64.to_bits())).unwrap();
        engine.execute_blocks().unwrap();
        engine.execute_blocks().unwrap();
    }

    // the next cycle wraps back to pump 1
    engine.set_signal("pressure", SignalValue::Float(45.0f64.to_bits())).unwrap();
    engine.execute_blocks().unwrap();
    engine.execute_blocks().unwrap();
    assert_eq!(engine.signal_bus().get_bool("pump1_run").unwrap(), true);
    assert_eq!(engine.signal_bus().get_int("pump_index").unwrap(), 0);

    // system reset drives the index home
    engine.set_signal("system_reset", SignalValue::Bool(true)).unwrap();
    engine.execute_blocks().unwrap();
    assert_eq!(engine.signal_bus().get_int("pump_index").unwrap(), 0);

    // manual override gates every pump off
    engine.set_signal("manual_override", SignalValue::Bool(true)).unwrap();
    engine.set_signal("system_reset", SignalValue::Bool(false)).unwrap();
    engine.set_signal("pressure", SignalValue::Float(45.0f64.to_bits())).unwrap();
    engine.execute_blocks().unwrap();
    engine.execute_blocks().unwrap();
    assert_eq!(engine.signal_bus().get_bool("pump1_run").unwrap(), false);
}

#[test]
fn twin_engines_stay_in_lockstep() {
    let mut left = ScanEngine::new(pump_alternation_config()).unwrap();
    let mut right = ScanEngine::new(pump_alternation_config()).unwrap();
    let writes: [(&str, f64); 4] = [
        ("pressure", 45.0),
        ("pressure", 65.0),
        ("pressure", 45.0),
        ("pressure", 42.0),
    ];
    for (name, value) in writes {
        left.set_signal(name, SignalValue::Float(value.to_bits())).unwrap();
        right.set_signal(name, SignalValue::Float(value.to_bits())).unwrap();
        // the pump program reads no clock, so the scans are deterministic
        left.execute_blocks_at(0).unwrap();
        right.execute_blocks_at(0).unwrap();
        let mut a = left.dump_signals();
        let mut b = right.dump_signals();
        a.sort_by(|x, y| x.0.cmp(&y.0));
        b.sort_by(|x, y| x.0.cmp(&y.0));
        assert_eq!(a.len(), b.len());
        for (x, y) in a.iter().zip(b.iter()) {
            assert_eq!(x.0, y.0);
            match (&x.1, &y.1) {
                (SignalValue::Bool(p), SignalValue::Bool(q)) => assert_eq!(p, q),
                (SignalValue::Int(p), SignalValue::Int(q)) => assert_eq!(p, q),
                (SignalValue::Float(p), SignalValue::Float(q)) => assert_eq!(p, q),
                (SignalValue::Str(p), SignalValue::Str(q)) => assert_eq!(p, q),
                _ => panic!("snapshots diverge in shape at {}", x.0),
            }
        }
    }
}
