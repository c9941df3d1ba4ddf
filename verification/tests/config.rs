use modbus_mqtt_bridge::command::Cmd;
use modbus_mqtt_bridge::config::{
    default_scan_baud_rates, default_scan_slave_end, default_scan_slave_start, env_baud_rates,
    env_bool, env_num, env_str, Config,
};
use modbus_mqtt_bridge::port::{DataBits, Parity, PortSettings, StopBits};

fn vars(entries: &[(&str, &str)]) -> Vec<(String, String)> {
    entries.iter().map(|(k, v)| (k.to_string(), v.to_string())).collect()
}

fn defaults() -> Config {
    Config {
        serial_port: "/dev/ttyUSB0".to_string(),
        baud_rate: 9600,
        mqtt_host: "localhost".to_string(),
        mqtt_port: 1883,
        mqtt_id: "modbus-bridge".to_string(),
        topic_cmd: "modbus/command".to_string(),
        topic_rsp: "modbus/response".to_string(),
        topic_status: "modbus/status".to_string(),
        topic_discovered: "modbus/discovered".to_string(),
        timeout_ms: 1000,
        scan_on_startup: true,
        scan_baud_rates: vec![9600, 4800, 19200, 38400],
        scan_slave_start: 1,
        scan_slave_end: 20,
    }
}

#[test]
fn an_empty_environment_gives_the_defaults() {
    assert_eq!(Config::from_env(&vars(&[])), defaults());
    assert_eq!(Config::from_env(&vars(&[("PATH", "/bin"), ("baud_rate", "1")])), defaults());
}

#[test]
fn every_variable_sets_its_setting() {
    let config = Config::from_env(&vars(&[
        ("SERIAL_PORT", "/dev/ttyS1"),
        ("BAUD_RATE", "115200"),
        ("MQTT_HOST", "broker"),
        ("MQTT_PORT", "8883"),
        ("MQTT_CLIENT_ID", "me"),
        ("TOPIC_COMMAND", "c"),
        ("TOPIC_RESPONSE", "r"),
        ("TOPIC_STATUS", "s"),
        ("TOPIC_DISCOVERED", "d"),
        ("TIMEOUT_MS", "250"),
        ("SCAN_ON_STARTUP", "no"),
        ("SCAN_BAUD_RATES", "1200, 2400"),
        ("SCAN_SLAVE_START", "5"),
        ("SCAN_SLAVE_END", "247"),
    ]));
    assert_eq!(
        config,
        Config {
            serial_port: "/dev/ttyS1".to_string(),
            baud_rate: 115200,
            mqtt_host: "broker".to_string(),
            mqtt_port: 8883,
            mqtt_id: "me".to_string(),
            topic_cmd: "c".to_string(),
            topic_rsp: "r".to_string(),
            topic_status: "s".to_string(),
            topic_discovered: "d".to_string(),
            timeout_ms: 250,
            scan_on_startup: false,
            scan_baud_rates: vec![1200, 2400],
            scan_slave_start: 5,
            scan_slave_end: 247,
        }
    );
}

#[test]
fn the_port_in_the_settings_is_opened() {
    let config = Config::from_env(&vars(&[
        ("SERIAL_PORT", "/dev/ttyS1"),
        ("BAUD_RATE", "115200"),
        ("TIMEOUT_MS", "250"),
    ]));
    assert_eq!(
        config.port_settings(),
        PortSettings {
            path: "/dev/ttyS1".to_string(),
            baud_rate: 115200,
            data_bits: DataBits::Eight,
            parity: Parity::Absent,
            stop_bits: StopBits::One,
            timeout_ms: 250,
        }
    );
}

#[test]
fn what_is_not_understood_is_passed_over() {
    let config = Config::from_env(&vars(&[
        ("BAUD_RATE", "fast"),
        ("MQTT_PORT", "65536"),
        ("TIMEOUT_MS", "-1"),
        ("SCAN_ON_STARTUP", "TRUE"),
        ("SCAN_BAUD_RATES", "a,b"),
        ("SCAN_SLAVE_START", "256"),
        ("SCAN_SLAVE_END", " 9"),
    ]));
    assert_eq!(config, defaults());
}

#[test]
fn an_empty_text_is_a_text() {
    assert_eq!(env_str(&vars(&[("A", "")]), "A", "x"), "");
    assert_eq!(env_str(&vars(&[("A", "1"), ("A", "2")]), "A", "x"), "1");
    assert_eq!(env_str(&vars(&[("B", "1")]), "A", "x"), "x");
}

#[test]
fn numbers_have_bounds() {
    assert_eq!(env_num(&vars(&[("A", "255")]), "A", 3, 255), 255);
    assert_eq!(env_num(&vars(&[("A", "256")]), "A", 3, 255), 3);
    assert_eq!(env_num(&vars(&[("A", "+012")]), "A", 3, 255), 12);
    assert_eq!(env_num(&vars(&[("A", "")]), "A", 3, 255), 3);
    assert_eq!(env_num(&vars(&[]), "A", 3, 255), 3);
}

#[test]
fn switches_know_six_words() {
    for word in ["true", "1", "yes"] {
        assert!(env_bool(&vars(&[("A", word)]), "A", false));
    }
    for word in ["false", "0", "no"] {
        assert!(!env_bool(&vars(&[("A", word)]), "A", true));
    }
    for word in ["", "True", "on", " yes", "01"] {
        assert!(env_bool(&vars(&[("A", word)]), "A", true));
        assert!(!env_bool(&vars(&[("A", word)]), "A", false));
    }
    assert!(env_bool(&vars(&[]), "A", true));
}

#[test]
fn there_is_always_a_rate_to_scan_at() {
    assert_eq!(env_baud_rates(&vars(&[("A", "")]), "A", vec![7]), vec![7]);
    assert_eq!(env_baud_rates(&vars(&[("A", "x,3")]), "A", vec![7]), vec![3]);
    assert_eq!(env_baud_rates(&vars(&[]), "A", vec![7]), vec![7]);
}

#[test]
fn a_bare_scan_takes_the_settings() {
    let config = defaults();
    assert_eq!(
        config.scan_command(None, None, None, None),
        Cmd::ScanBus {
            baud_rates: vec![9600, 4800, 19200, 38400],
            slave_id_start: 1,
            slave_id_end: 20,
            request_id: None,
        }
    );
    let config = Config::from_env(&vars(&[
        ("SCAN_BAUD_RATES", "1200"),
        ("SCAN_SLAVE_START", "3"),
        ("SCAN_SLAVE_END", "4"),
    ]));
    assert_eq!(default_scan_baud_rates(&config), vec![1200]);
    assert_eq!(default_scan_slave_start(&config), 3);
    assert_eq!(default_scan_slave_end(&config), 4);
    let id = Some("x".to_string());
    assert_eq!(
        config.scan_command(None, None, None, id.clone()),
        Cmd::ScanBus {
            baud_rates: vec![1200],
            slave_id_start: 3,
            slave_id_end: 4,
            request_id: id,
        }
    );
}

#[test]
fn a_scan_takes_what_it_is_given() {
    let config = defaults();
    assert_eq!(
        config.scan_command(Some(vec![]), Some(9), Some(5), None),
        Cmd::ScanBus {
            baud_rates: vec![],
            slave_id_start: 9,
            slave_id_end: 5,
            request_id: None,
        }
    );
    assert_eq!(
        config.scan_command(None, None, Some(247), None),
        Cmd::ScanBus {
            baud_rates: vec![9600, 4800, 19200, 38400],
            slave_id_start: 1,
            slave_id_end: 247,
            request_id: None,
        }
    );
}

#[test]
fn commands_have_names_and_tags() {
    let id = Some("x".to_string());
    let commands = [
        (
            Cmd::ReadHoldingRegisters { slave_id: 1, address: 0, count: 1, request_id: id.clone() },
            "read_holding_registers",
        ),
        (
            Cmd::ReadInputRegisters { slave_id: 1, address: 0, count: 1, request_id: id.clone() },
            "read_input_registers",
        ),
        (Cmd::ReadCoils { slave_id: 1, address: 0, count: 1, request_id: id.clone() }, "read_coils"),
        (
            Cmd::ReadDiscreteInputs { slave_id: 1, address: 0, count: 1, request_id: id.clone() },
            "read_discrete_inputs",
        ),
        (
            Cmd::WriteSingleRegister { slave_id: 1, address: 0, value: 1, request_id: id.clone() },
            "write_single_register",
        ),
        (
            Cmd::WriteMultipleRegisters {
                slave_id: 1,
                address: 0,
                values: vec![],
                request_id: id.clone(),
            },
            "write_multiple_registers",
        ),
        (
            Cmd::WriteSingleCoil { slave_id: 1, address: 0, value: true, request_id: id.clone() },
            "write_single_coil",
        ),
        (
            Cmd::ScanBus {
                baud_rates: vec![],
                slave_id_start: 1,
                slave_id_end: 2,
                request_id: id.clone(),
            },
            "scan_bus",
        ),
    ];
    for (cmd, name) in &commands {
        assert_eq!(cmd.action_label(), *name);
        assert_eq!(cmd.request_id(), Some("x"));
        assert_eq!(cmd.is_scan(), *name == "scan_bus");
    }
    let untagged = Cmd::ReadCoils { slave_id: 1, address: 0, count: 1, request_id: None };
    assert_eq!(untagged.request_id(), None);
}
