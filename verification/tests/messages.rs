use modbus_mqtt_bridge::bridge::{
    conclude, connected, publish_rsp, receive, report_startup_scan, Admission, Publication, Reply,
    Ticket, QOS,
};
use modbus_mqtt_bridge::command::Cmd;
use modbus_mqtt_bridge::config::Config;
use modbus_mqtt_bridge::data::{Capabilities, Data, Device};
use modbus_mqtt_bridge::error::Error;
use modbus_mqtt_bridge::json::Json;
use modbus_mqtt_bridge::report::Rsp;

fn text(s: &str) -> Json {
    Json::Text(s.to_string())
}

fn object(members: Vec<(&str, Json)>) -> Json {
    Json::Object(members.into_iter().map(|(name, doc)| (name.to_string(), doc)).collect())
}

/// The document as it goes over the wire.
fn wire(doc: &Json) -> String {
    match doc {
        Json::Bool(b) => format!("{}", b),
        Json::Number(n) => format!("{}", n),
        Json::Text(s) => format!("{:?}", s),
        Json::Array(items) => {
            let items: Vec<String> = items.iter().map(wire).collect();
            format!("[{}]", items.join(","))
        }
        Json::Object(members) => {
            let members: Vec<String> =
                members.iter().map(|(name, doc)| format!("{:?}:{}", name, wire(doc))).collect();
            format!("{{{}}}", members.join(","))
        }
    }
}

fn settings() -> Config {
    Config::from_env(&vec![])
}

fn found() -> Data {
    Data::ScanResult {
        discovered: vec![Device {
            slave_id: 3,
            baud_rate: 9600,
            caps: Capabilities {
                coils: 8,
                discrete_inputs: 0,
                holding_registers: 4,
                input_registers: 0,
            },
        }],
    }
}

const FOUND: &str = "{\"discovered\":[{\"baud_rate\":9600,\"coils\":8,\"discrete_inputs\":0,\
\"holding_registers\":4,\"input_registers\":0,\"slave_id\":3}],\"type\":\"scan_result\"}";

#[test]
fn results_are_written_as_objects() {
    let results = [
        (
            Data::HoldingRegisters { slave_id: 1, address: 2, values: vec![3, 65535] },
            "{\"address\":2,\"slave_id\":1,\"type\":\"holding_registers\",\"values\":[3,65535]}",
        ),
        (
            Data::InputRegisters { slave_id: 1, address: 2, values: vec![] },
            "{\"address\":2,\"slave_id\":1,\"type\":\"input_registers\",\"values\":[]}",
        ),
        (
            Data::Coils { slave_id: 1, address: 2, values: vec![true, false] },
            "{\"address\":2,\"slave_id\":1,\"type\":\"coils\",\"values\":[true,false]}",
        ),
        (
            Data::DiscreteInputs { slave_id: 1, address: 2, values: vec![false] },
            "{\"address\":2,\"slave_id\":1,\"type\":\"discrete_inputs\",\"values\":[false]}",
        ),
        (
            Data::WriteRegister { slave_id: 1, address: 2, value: 42 },
            "{\"address\":2,\"slave_id\":1,\"type\":\"write_register\",\"value\":42}",
        ),
        (
            Data::WriteRegisters { slave_id: 1, address: 2, count: 3 },
            "{\"address\":2,\"count\":3,\"slave_id\":1,\"type\":\"write_registers\"}",
        ),
        (
            Data::WriteCoil { slave_id: 1, address: 2, value: true },
            "{\"address\":2,\"slave_id\":1,\"type\":\"write_coil\",\"value\":true}",
        ),
        (found(), FOUND),
        (
            Data::ScanResult { discovered: vec![] },
            "{\"discovered\":[],\"type\":\"scan_result\"}",
        ),
    ];
    for (data, expected) in &results {
        assert_eq!(wire(&data.to_json()), *expected);
        let parsed: serde_json::Value = serde_json::from_str(expected).unwrap();
        assert_eq!(serde_json::to_string(&parsed).unwrap(), *expected);
    }
}

#[test]
fn a_response_leaves_out_what_is_missing() {
    let rsp = Rsp { success: false, data: None, error: None, request_id: None };
    assert_eq!(wire(&rsp.to_json()), "{\"success\":false}");
    let rsp = Rsp {
        success: true,
        data: Some(Data::WriteCoil { slave_id: 1, address: 2, value: true }),
        error: Some("e".to_string()),
        request_id: Some("r".to_string()),
    };
    assert_eq!(
        publish_rsp("t", &rsp),
        Publication {
            topic: "t".to_string(),
            retain: false,
            body: object(vec![
                ("success", Json::Bool(true)),
                (
                    "data",
                    object(vec![
                        ("address", Json::Number(2)),
                        ("slave_id", Json::Number(1)),
                        ("type", text("write_coil")),
                        ("value", Json::Bool(true)),
                    ]),
                ),
                ("error", text("e")),
                ("request_id", text("r")),
            ]),
        }
    );
}

#[test]
fn a_connection_starts_with_a_subscription() {
    let config = settings();
    let plan = connected(&config);
    assert_eq!(plan.subscribe, "modbus/command");
    assert_eq!(plan.status.topic, "modbus/status");
    assert!(plan.status.retain);
    assert_eq!(
        wire(&plan.status.body),
        "{\"baud_rate\":9600,\"serial_port\":\"/dev/ttyUSB0\",\"status\":\"online\"}"
    );
    assert_eq!(
        plan.scan,
        Some(Cmd::ScanBus {
            baud_rates: vec![9600, 4800, 19200, 38400],
            slave_id_start: 1,
            slave_id_end: 20,
            request_id: Some("startup-scan".to_string()),
        })
    );
    let mut quiet = config;
    quiet.scan_on_startup = false;
    assert_eq!(connected(&quiet).scan, None);
    assert_eq!(QOS, 1);
}

#[test]
fn the_scan_at_startup_is_announced() {
    let config = settings();
    let announced = report_startup_scan(&config, &Reply::Ended(Ok(found()))).unwrap();
    assert_eq!(announced.topic, "modbus/discovered");
    assert!(announced.retain);
    assert_eq!(wire(&announced.body), FOUND);
    assert_eq!(report_startup_scan(&config, &Reply::Ended(Err(Error::ScanInProgress))), None);
    assert_eq!(report_startup_scan(&config, &Reply::Dropped), None);
    assert_eq!(report_startup_scan(&config, &Reply::Undelivered), None);
}

#[test]
fn a_command_is_forwarded_with_its_ticket() {
    let config = settings();
    let cmd = Cmd::ReadCoils {
        slave_id: 1,
        address: 0,
        count: 8,
        request_id: Some("abc".to_string()),
    };
    match receive(&config, Ok(cmd.clone())) {
        Admission::Forward(forwarded, ticket) => {
            assert_eq!(forwarded, cmd);
            assert_eq!(
                ticket,
                Ticket { is_scan: false, request_id: Some("abc".to_string()) }
            );
        }
        Admission::Refuse(_) => unreachable!(),
    }
    let scan = Cmd::ScanBus {
        baud_rates: vec![],
        slave_id_start: 1,
        slave_id_end: 2,
        request_id: None,
    };
    match receive(&config, Ok(scan)) {
        Admission::Forward(_, ticket) => {
            assert_eq!(ticket, Ticket { is_scan: true, request_id: None })
        }
        Admission::Refuse(_) => unreachable!(),
    }
}

#[test]
fn what_is_no_command_is_refused() {
    match receive(&settings(), Err("expected value at line 1 column 1".to_string())) {
        Admission::Refuse(publication) => {
            assert_eq!(publication.topic, "modbus/response");
            assert!(!publication.retain);
            assert_eq!(
                wire(&publication.body),
                "{\"success\":false,\"error\":\"parse error: expected value at line 1 column 1\"}"
            );
        }
        Admission::Forward(_, _) => unreachable!(),
    }
}

#[test]
fn one_response_per_command() {
    let config = settings();
    let tagged = Ticket { is_scan: false, request_id: Some("7".to_string()) };
    let data = Data::WriteCoil { slave_id: 1, address: 2, value: true };
    let published = conclude(&config, tagged.clone(), Reply::Ended(Ok(data)));
    assert_eq!(published.len(), 1);
    assert_eq!(published[0].topic, "modbus/response");
    assert!(!published[0].retain);
    assert_eq!(
        wire(&published[0].body),
        "{\"success\":true,\"data\":{\"address\":2,\"slave_id\":1,\"type\":\"write_coil\",\
         \"value\":true},\"request_id\":\"7\"}"
    );
    let published = conclude(&config, tagged.clone(), Reply::Ended(Err(Error::ReadHeader)));
    assert_eq!(published.len(), 1);
    assert_eq!(
        wire(&published[0].body),
        "{\"success\":false,\"error\":\"reading RTU header\",\"request_id\":\"7\"}"
    );
    let published = conclude(&config, tagged.clone(), Reply::Dropped);
    assert_eq!(published.len(), 1);
    assert_eq!(
        wire(&published[0].body),
        "{\"success\":false,\"error\":\"modbus thread dropped\",\"request_id\":\"7\"}"
    );
    assert_eq!(conclude(&config, tagged, Reply::Undelivered), vec![]);
}

#[test]
fn scans_are_announced_alike() {
    let config = settings();
    let ticket = Ticket { is_scan: true, request_id: None };
    let published = conclude(&config, ticket.clone(), Reply::Ended(Ok(found())));
    assert_eq!(published.len(), 2);
    let announced = report_startup_scan(&config, &Reply::Ended(Ok(found()))).unwrap();
    assert_eq!(published[0], announced);
    assert_eq!(published[1].topic, "modbus/response");
    assert!(!published[1].retain);
    assert_eq!(wire(&published[1].body), format!("{{\"success\":true,\"data\":{}}}", FOUND));
    let published = conclude(&config, ticket, Reply::Ended(Err(Error::ScanInProgress)));
    assert_eq!(published.len(), 1);
    assert_eq!(
        wire(&published[0].body),
        "{\"success\":false,\"error\":\"scan already in progress, try again later\"}"
    );
}
