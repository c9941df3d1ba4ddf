use modbus_mqtt_bridge::command::Cmd;
use modbus_mqtt_bridge::config::Config;
use modbus_mqtt_bridge::data::{Capabilities, Data, Device, Outcome};
use modbus_mqtt_bridge::error::Error;
use modbus_mqtt_bridge::exchange::{run_cmd, ExchangeNext};
use modbus_mqtt_bridge::port::{Action, Event, Requester};
use modbus_mqtt_bridge::probe::{probe_capabilities, probe_func, CapabilityNext, ProbeNext};
use modbus_mqtt_bridge::response::{read_rtu_response, RtuNext};
use modbus_mqtt_bridge::scan::{scan_bus, ScanNext};
use modbus_mqtt_bridge::service::{service_pending_cmds, ServiceNext};
use modbus_mqtt_bridge::worker::{modbus_thread, Worker};

fn sealed(body: &[u8]) -> Vec<u8> {
    let mut crc: u16 = 0xFFFF;
    for byte in body {
        crc ^= u16::from(*byte);
        for _ in 0..8 {
            crc = if crc & 1 == 0 { crc >> 1 } else { (crc >> 1) ^ 0xA001 };
        }
    }
    let mut frame = body.to_vec();
    frame.extend_from_slice(&crc.to_le_bytes());
    frame
}

fn holdings(slave_id: u8, count: u16) -> Cmd {
    Cmd::ReadHoldingRegisters { slave_id, address: 0, count, request_id: None }
}

fn scan(baud_rates: Vec<u32>, slave_id_start: u8, slave_id_end: u8) -> Cmd {
    Cmd::ScanBus { baud_rates, slave_id_start, slave_id_end, request_id: None }
}

/// What an action was, in a word.
fn name(action: &Action) -> String {
    match action {
        Action::Open(settings) => format!(
            "open {} {} {:?} {:?} {:?} {}",
            settings.path,
            settings.baud_rate,
            settings.data_bits,
            settings.parity,
            settings.stop_bits,
            settings.timeout_ms
        ),
        Action::Pause(seconds) => format!("pause {}", seconds),
        Action::SetBaudRate(rate) => format!("baud {}", rate),
        Action::SetTimeout(millis) => format!("timeout {}", millis),
        Action::ClearAll => "clear".to_string(),
        Action::ClearInput => "clear input".to_string(),
        Action::Write(bytes) => format!("write {:?}", bytes),
        Action::Flush => "flush".to_string(),
        Action::Read(len) => format!("read {}", len),
        Action::Receive => "receive".to_string(),
        Action::TryReceive => "try".to_string(),
        Action::Reply(Requester::Current, outcome) => format!("reply {}", told(outcome)),
        Action::Reply(Requester::Interleaved, outcome) => format!("reply aside {}", told(outcome)),
        Action::Stop => "stop".to_string(),
        Action::Abort => "abort".to_string(),
    }
}

fn told(outcome: &Outcome) -> String {
    match outcome {
        Ok(data) => format!("{:?}", data),
        Err(error) => error.message(),
    }
}

/// Carries a command out against a line that has `answer` waiting.
fn exchange(cmd: Cmd, answer: &[u8]) -> (Vec<String>, Option<Outcome>) {
    let mut seen = Vec::new();
    let mut waiting = answer.to_vec();
    let mut running = run_cmd(cmd);
    loop {
        seen.push(name(&running.action()));
        let event = match running.action() {
            Action::Read(len) if waiting.len() >= len => {
                Event::Bytes(waiting.drain(..len).collect())
            }
            Action::Read(_) => Event::Failed,
            _ => Event::Done,
        };
        match running.step(event) {
            ExchangeNext::Running(next) => running = next,
            ExchangeNext::Finished(outcome) => return (seen, Some(outcome)),
            ExchangeNext::Aborted => return (seen, None),
        }
    }
}

#[test]
fn a_read_command_takes_five_actions() {
    let answer = sealed(&[1, 3, 4, 0, 6, 0, 5]);
    let (seen, outcome) = exchange(holdings(1, 2), &answer);
    let write = format!("write {:?}", sealed(&[1, 3, 0, 0, 0, 2]));
    assert_eq!(seen, vec!["clear", write.as_str(), "flush", "read 3", "read 6"]);
    assert_eq!(
        outcome,
        Some(Ok(Data::HoldingRegisters { slave_id: 1, address: 0, values: vec![6, 5] }))
    );
}

#[test]
fn a_write_command_reads_eight_bytes() {
    let cmd = Cmd::WriteSingleRegister { slave_id: 1, address: 2, value: 3, request_id: None };
    let answer = sealed(&[1, 6, 0, 2, 0, 3]);
    let (seen, outcome) = exchange(cmd, &answer);
    let write = format!("write {:?}", answer);
    assert_eq!(seen, vec!["clear", write.as_str(), "flush", "read 3", "read 5"]);
    assert_eq!(outcome, Some(Ok(Data::WriteRegister { slave_id: 1, address: 2, value: 3 })));
}

#[test]
fn an_exception_is_reported() {
    let (seen, outcome) = exchange(holdings(1, 2), &sealed(&[1, 0x83, 2]));
    assert_eq!(&seen[3..], &["read 3", "read 2"]);
    let error = outcome.unwrap().unwrap_err();
    assert_eq!(error, Error::Exception { func: 3, code: 2 });
    assert_eq!(error.message(), "Modbus exception (func=0x03, code=2)");

    let (_, outcome) = exchange(holdings(1, 2), &[1, 0xFF, 255]);
    let error = outcome.unwrap().unwrap_err();
    assert_eq!(error.message(), "Modbus exception (func=0x7f, code=255)");
}

#[test]
fn what_goes_wrong_has_its_message() {
    let (_, outcome) = exchange(holdings(1, 2), &[1, 3]);
    assert_eq!(outcome.unwrap().unwrap_err().message(), "reading RTU header");
    let (_, outcome) = exchange(holdings(1, 2), &[1, 3, 4, 0]);
    assert_eq!(outcome.unwrap().unwrap_err().message(), "reading RTU body");
    let (_, outcome) = exchange(holdings(1, 2), &[1, 0x10, 4]);
    assert_eq!(
        outcome.unwrap().unwrap_err().message(),
        "Unexpected function code: got 0x10, expected 0x03"
    );
    let (_, outcome) = exchange(holdings(1, 2), &[1, 3, 2, 0, 0, 0, 0]);
    assert_eq!(outcome.unwrap().unwrap_err().message(), "parse: FrameCRCError");
    let bulk = Cmd::WriteMultipleRegisters {
        slave_id: 1,
        address: 0,
        values: vec![0; 125],
        request_id: None,
    };
    let (seen, outcome) = exchange(bulk, &[]);
    assert_eq!(seen, vec!["clear"]);
    assert_eq!(outcome.unwrap().unwrap_err().message(), "build frame: OOB");
    let (seen, outcome) = exchange(scan(vec![9600], 1, 2), &[]);
    assert_eq!(seen, vec!["clear"]);
    assert_eq!(
        outcome.unwrap().unwrap_err().message(),
        "internal: ScanBus must not be dispatched to run_cmd"
    );
    assert_eq!(
        Error::ScanInProgress.message(),
        "scan already in progress, try again later"
    );
    assert_eq!(Error::WorkerDropped.message(), "modbus thread dropped");
    assert_eq!(Error::UnknownFunction { func: 0x2B }.message(), "Unknown function code 0x2b");
}

#[test]
fn a_failed_write_ends_a_command() {
    let running = run_cmd(holdings(1, 2));
    let running = match running.step(Event::Failed) {
        ExchangeNext::Running(next) => next,
        _ => unreachable!(),
    };
    match running.step(Event::Failed) {
        ExchangeNext::Finished(Err(error)) => {
            assert_eq!(error, Error::SerialWrite);
            assert_eq!(error.message(), "serial write");
        }
        _ => unreachable!(),
    }
}

#[test]
fn an_empty_answer_to_a_register_request_aborts() {
    let (_, outcome) = exchange(holdings(1, 2), &sealed(&[1, 3, 0]));
    assert!(outcome.is_none());
}

#[test]
fn an_unknown_function_code_has_no_length() {
    let read = read_rtu_response(0x2B);
    assert_eq!(read.wanted(), 3);
    match read.step(Event::Bytes(vec![1, 0x2B, 0])) {
        RtuNext::Finished(Err(error)) => assert_eq!(error, Error::UnknownFunction { func: 0x2B }),
        _ => unreachable!(),
    }
}

#[test]
fn the_length_of_an_answer_follows_from_its_header() {
    for (func, third, len) in [
        (0x01, 0, 2),
        (0x02, 255, 257),
        (0x03, 4, 6),
        (0x04, 1, 3),
        (0x05, 200, 5),
        (0x06, 0, 5),
        (0x0F, 9, 5),
        (0x10, 255, 5),
    ] {
        match read_rtu_response(func).step(Event::Bytes(vec![9, func, third])) {
            RtuNext::Running(read) => {
                assert_eq!(read.wanted(), len);
                let body = vec![7u8; len];
                match read.step(Event::Bytes(body.clone())) {
                    RtuNext::Finished(Ok(frame)) => {
                        assert_eq!(&frame[..3], &[9, func, third]);
                        assert_eq!(&frame[3..], &body[..]);
                    }
                    _ => unreachable!(),
                }
            }
            _ => unreachable!(),
        }
    }
}

/// Carries a probe out against a device that answers with `header`, if at all.
fn probe(func: u8, count: u16, header: Option<[u8; 3]>) -> (Vec<String>, u16) {
    let mut seen = Vec::new();
    let mut running = probe_func(9, func, count);
    loop {
        seen.push(name(&running.action()));
        let event = match running.action() {
            Action::Read(3) => match header {
                Some(bytes) => Event::Bytes(bytes.to_vec()),
                None => Event::Failed,
            },
            _ => Event::Done,
        };
        match running.step(event) {
            ProbeNext::Running(next) => running = next,
            ProbeNext::Finished(count) => return (seen, count),
        }
    }
}

#[test]
fn a_probe_counts_all_or_nothing() {
    for func in 1..=4 {
        let (seen, count) = probe(func, 8, Some([9, func, 1]));
        let write = format!("write {:?}", sealed(&[9, func, 0, 0, 0, 8]));
        assert_eq!(seen, vec!["clear", write.as_str(), "flush", "read 3", "clear input"]);
        assert_eq!(count, 8);
        assert_eq!(probe(func, 8, Some([9, func | 0x80, 1])).1, 0);
        assert_eq!(probe(func, 8, Some([9, func + 1, 1])).1, 0);
        assert_eq!(probe(func, 8, None).1, 0);
    }
    assert_eq!(probe(5, 8, Some([9, 5, 1])), (vec!["clear".to_string()], 0));
}

#[test]
fn a_probe_that_cannot_be_written_counts_nothing() {
    let running = match probe_func(9, 1, 8).step(Event::Done) {
        ProbeNext::Running(next) => next,
        _ => unreachable!(),
    };
    assert!(matches!(running.step(Event::Failed), ProbeNext::Finished(0)));
}

#[test]
fn a_survey_goes_on_after_a_failed_write() {
    let mut written = 0;
    let mut seen = Vec::new();
    let mut running = probe_capabilities(9);
    let caps = loop {
        seen.push(name(&running.action()));
        let event = match running.action() {
            Action::Write(_) => {
                written += 1;
                if written == 2 {
                    Event::Failed
                } else {
                    Event::Done
                }
            }
            Action::Read(3) => Event::Bytes(vec![9, written, 1]),
            _ => Event::Done,
        };
        match running.step(event) {
            CapabilityNext::Running(next) => running = next,
            CapabilityNext::Finished(caps) => break caps,
        }
    };
    assert_eq!(seen.len(), 5 + 2 + 5 + 5);
    assert_eq!(
        caps,
        Capabilities { coils: 8, discrete_inputs: 0, holding_registers: 4, input_registers: 4 }
    );
}

#[test]
fn capabilities_are_probed_one_by_one() {
    let mut written = Vec::new();
    let mut running = probe_capabilities(9);
    let caps = loop {
        let event = match running.action() {
            Action::Write(frame) => {
                written.push(frame.clone());
                Event::Done
            }
            Action::Read(3) => match written.len() {
                1 => Event::Bytes(vec![9, 1, 1]),
                2 => Event::Failed,
                3 => Event::Bytes(vec![9, 0x83, 2]),
                _ => Event::Bytes(vec![9, 4, 8]),
            },
            _ => Event::Done,
        };
        match running.step(event) {
            CapabilityNext::Running(next) => running = next,
            CapabilityNext::Finished(caps) => break caps,
        }
    };
    assert_eq!(
        written,
        vec![
            sealed(&[9, 1, 0, 0, 0, 8]),
            sealed(&[9, 2, 0, 0, 0, 8]),
            sealed(&[9, 3, 0, 0, 0, 4]),
            sealed(&[9, 4, 0, 0, 0, 4]),
        ]
    );
    assert_eq!(
        caps,
        Capabilities { coils: 8, discrete_inputs: 0, holding_registers: 0, input_registers: 4 }
    );
}

/// A line with some devices on it, each at a baud rate and a slave id. All of them serve coils
/// and holding registers, and answer other requests by exceptions.
struct Line {
    devices: Vec<(u32, u8)>,
    bad_rates: Vec<u32>,
    baud_rate: u32,
    timeout_ms: u64,
    waiting: Vec<u8>,
    queue: Vec<Cmd>,
    seen: Vec<String>,
}

impl Line {
    fn new(devices: Vec<(u32, u8)>) -> Line {
        Line {
            devices,
            bad_rates: vec![],
            baud_rate: 0,
            timeout_ms: 0,
            waiting: vec![],
            queue: vec![],
            seen: vec![],
        }
    }

    fn request(&mut self, frame: &[u8]) {
        if !self.devices.contains(&(self.baud_rate, frame[0])) {
            return;
        }
        let count = frame[5];
        self.waiting = match frame[1] {
            1 => sealed(&[frame[0], 1, 1, 0x05]),
            3 => {
                let mut body = vec![frame[0], 3, 2 * count];
                for i in 0..count {
                    body.extend_from_slice(&[0, 100 + i]);
                }
                sealed(&body)
            }
            func => sealed(&[frame[0], func | 0x80, 1]),
        };
    }

    fn perform(&mut self, action: &Action) -> Event {
        self.seen.push(name(action));
        match action {
            Action::Open(settings) => {
                self.baud_rate = settings.baud_rate;
                self.timeout_ms = settings.timeout_ms;
                Event::Done
            }
            Action::SetBaudRate(rate) => {
                if self.bad_rates.contains(rate) {
                    return Event::Failed;
                }
                self.baud_rate = *rate;
                Event::Done
            }
            Action::SetTimeout(millis) => {
                self.timeout_ms = *millis;
                Event::Done
            }
            Action::ClearAll | Action::ClearInput => {
                self.waiting.clear();
                Event::Done
            }
            Action::Write(frame) => {
                self.request(frame);
                Event::Done
            }
            Action::Read(len) => {
                if self.waiting.len() < *len {
                    Event::Failed
                } else {
                    Event::Bytes(self.waiting.drain(..*len).collect())
                }
            }
            Action::Receive | Action::TryReceive => {
                if self.queue.is_empty() {
                    Event::Nothing
                } else {
                    Event::Command(self.queue.remove(0))
                }
            }
            _ => Event::Done,
        }
    }

    fn scan(&mut self, rates: Vec<u32>, start: u8, end: u8) -> Vec<Device> {
        let mut running = scan_bus(rates, start, end, 9600, 1000);
        loop {
            let event = self.perform(&running.action());
            match running.step(event) {
                ScanNext::Running(next) => running = next,
                ScanNext::Finished(devices) => return devices,
                ScanNext::Aborted => unreachable!(),
            }
        }
    }

    fn work(&mut self, worker: Worker) {
        let mut worker = worker;
        loop {
            if let Action::Stop | Action::Abort = worker.action() {
                self.seen.push(name(&worker.action()));
                return;
            }
            let event = self.perform(&worker.action());
            worker = worker.step(event);
        }
    }
}

fn device(baud_rate: u32, slave_id: u8) -> Device {
    Device {
        slave_id,
        baud_rate,
        caps: Capabilities {
            coils: 8,
            discrete_inputs: 0,
            holding_registers: 4,
            input_registers: 0,
        },
    }
}

#[test]
fn a_scan_finds_every_device_and_no_other() {
    let mut line = Line::new(vec![(9600, 3), (4800, 1), (4800, 2), (4800, 9), (1200, 1)]);
    let found = line.scan(vec![9600, 4800], 1, 4);
    assert_eq!(found, vec![device(9600, 3), device(4800, 1), device(4800, 2)]);
    assert_eq!((line.baud_rate, line.timeout_ms), (9600, 1000));
    assert_eq!(line.seen[line.seen.len() - 2..], ["baud 9600", "timeout 1000"]);
    let probes: Vec<String> = (1..=4)
        .map(|slave_id| format!("write {:?}", sealed(&[slave_id, 1, 0, 0, 0, 1])))
        .collect();
    let sent: Vec<&String> = line.seen.iter().filter(|s| probes.contains(s)).collect();
    assert_eq!(sent, probes.iter().chain(probes.iter()).collect::<Vec<&String>>());
}

#[test]
fn a_scan_of_one_silent_device() {
    let mut line = Line::new(vec![]);
    assert_eq!(line.scan(vec![4800], 255, 255), vec![]);
    let write = format!("write {:?}", sealed(&[255, 1, 0, 0, 0, 1]));
    assert_eq!(
        line.seen,
        vec![
            "baud 4800",
            "timeout 300",
            "try",
            "baud 4800",
            "timeout 300",
            "clear",
            write.as_str(),
            "flush",
            "read 3",
            "clear input",
            "baud 9600",
            "timeout 1000",
        ]
    );
}

#[test]
fn scans_follow_each_other() {
    let devices = vec![(9600, 3), (4800, 1), (4800, 2), (2400, 4)];
    let rates_a = vec![9600, 4800];
    let rates_b = vec![2400, 9600];
    let mut both = rates_a.clone();
    both.extend_from_slice(&rates_b);
    let mut found = Line::new(devices.clone()).scan(rates_a, 1, 4);
    found.extend(Line::new(devices.clone()).scan(rates_b, 1, 4));
    assert_eq!(Line::new(devices.clone()).scan(both.clone(), 1, 4), found);
    assert_eq!(
        found,
        vec![
            device(9600, 3),
            device(4800, 1),
            device(4800, 2),
            device(2400, 4),
            device(9600, 3),
        ]
    );
    let all: Vec<(u32, u8)> = (1..=4).map(|id| (9600, id)).collect();
    assert_eq!(Line::new(all).scan(vec![9600, 9600], 1, 4).len(), 2 * 4);
}

#[test]
fn a_found_device_takes_28_actions() {
    let mut line = Line::new(vec![(4800, 1), (4800, 2)]);
    assert_eq!(line.scan(vec![4800], 1, 2).len(), 2);
    assert_eq!(line.seen.len(), 2 + 2 * 28 + 2);
}

#[test]
fn a_rate_that_cannot_be_set_is_passed_over() {
    let mut line = Line::new(vec![(9600, 1), (4800, 1)]);
    line.bad_rates = vec![9600];
    assert_eq!(line.scan(vec![9600, 4800], 1, 2), vec![device(4800, 1)]);
    assert_eq!(line.seen[..2], ["baud 9600", "baud 4800"]);
}

#[test]
fn scans_may_be_empty() {
    let mut line = Line::new(vec![(9600, 1)]);
    assert_eq!(line.scan(vec![], 1, 247), vec![]);
    assert_eq!(line.seen, vec!["baud 9600", "timeout 1000"]);
    let mut line = Line::new(vec![(9600, 1)]);
    assert_eq!(line.scan(vec![9600], 2, 1), vec![]);
    assert_eq!(line.seen, vec!["baud 9600", "timeout 300", "baud 9600", "timeout 1000"]);
}

#[test]
fn a_scan_takes_commands_in_between() {
    let mut line = Line::new(vec![(4800, 1), (9600, 7)]);
    line.queue = vec![holdings(7, 2), scan(vec![1200], 1, 2)];
    assert_eq!(line.scan(vec![4800], 1, 1), vec![device(4800, 1)]);
    let write = format!("write {:?}", sealed(&[7, 3, 0, 0, 0, 2]));
    let reply =
        "reply aside HoldingRegisters { slave_id: 7, address: 0, values: [100, 101] }".to_string();
    assert_eq!(
        line.seen[2..16],
        [
            "try",
            "baud 9600",
            "timeout 1000",
            "clear",
            "clear",
            write.as_str(),
            "flush",
            "read 3",
            "read 6",
            reply.as_str(),
            "try",
            "reply aside scan already in progress, try again later",
            "try",
            "baud 4800",
        ]
    );
}

#[test]
fn an_empty_queue_is_served_at_once() {
    let service = service_pending_cmds(9600, 1000);
    assert_eq!(name(&service.action()), "try");
    assert!(matches!(service.step(Event::Nothing), ServiceNext::Finished));
}

#[test]
fn a_queued_command_can_abort() {
    let mut running = service_pending_cmds(9600, 1000);
    let mut reads = 0;
    loop {
        let event = match running.action() {
            Action::TryReceive => Event::Command(holdings(1, 2)),
            Action::Read(len) => {
                let answer = sealed(&[1, 3, 0]);
                let part = if reads == 0 { &answer[..3] } else { &answer[3..] };
                assert_eq!(part.len(), len);
                reads += 1;
                Event::Bytes(part.to_vec())
            }
            _ => Event::Done,
        };
        match running.step(event) {
            ServiceNext::Running(next) => running = next,
            ServiceNext::Finished => unreachable!(),
            ServiceNext::Aborted => break,
        }
    }
    assert_eq!(reads, 2);
}

fn settings() -> Config {
    let mut config = Config::from_env(&vec![]);
    config.baud_rate = 9600;
    config.timeout_ms = 1000;
    config
}

#[test]
fn the_worker_retries_to_open_its_port() {
    let worker = modbus_thread(&settings());
    let open = "open /dev/ttyUSB0 9600 Eight Absent One 1000";
    assert_eq!(name(&worker.action()), open);
    let worker = worker.step(Event::Failed);
    assert_eq!(name(&worker.action()), "pause 5");
    let worker = worker.step(Event::Done);
    assert_eq!(name(&worker.action()), open);
    let worker = worker.step(Event::Done);
    assert_eq!(name(&worker.action()), "receive");
}

#[test]
fn the_worker_answers_every_command_once() {
    let mut line = Line::new(vec![(9600, 7), (4800, 2)]);
    line.queue = vec![
        holdings(7, 1),
        scan(vec![4800], 1, 2),
        holdings(8, 1),
        scan(vec![4800], 1, 2),
        holdings(7, 2),
    ];
    line.work(modbus_thread(&settings()));
    let replies: Vec<&String> = line.seen.iter().filter(|s| s.starts_with("reply")).collect();
    assert_eq!(
        replies,
        vec![
            "reply HoldingRegisters { slave_id: 7, address: 0, values: [100] }",
            "reply aside reading RTU header",
            "reply aside scan already in progress, try again later",
            "reply aside HoldingRegisters { slave_id: 7, address: 0, values: [100, 101] }",
            &format!("reply {:?}", Data::ScanResult { discovered: vec![device(4800, 2)] }),
        ]
    );
    assert_eq!(line.seen.last().unwrap(), "stop");
    assert_eq!((line.baud_rate, line.timeout_ms), (9600, 1000));
}

#[test]
fn frames_go_out_at_their_settings() {
    let mut line = Line::new(vec![(9600, 7), (4800, 2)]);
    line.queue = vec![scan(vec![4800, 2400], 1, 3), holdings(7, 1), holdings(7, 1)];
    let mut worker = modbus_thread(&settings());
    while !matches!(worker.action(), Action::Stop) {
        if let Action::Write(frame) = worker.action() {
            if frame[0] == 7 {
                assert_eq!((line.baud_rate, line.timeout_ms), (9600, 1000));
            } else {
                assert_ne!(line.baud_rate, 9600);
                assert_eq!(line.timeout_ms, 300);
            }
        }
        if let Action::Receive = worker.action() {
            assert_eq!((line.baud_rate, line.timeout_ms), (9600, 1000));
        }
        let event = line.perform(&worker.action());
        worker = worker.step(event);
    }
}

#[test]
fn the_worker_aborts_on_an_empty_answer() {
    let worker = modbus_thread(&settings()).step(Event::Done);
    let worker = worker.step(Event::Command(holdings(1, 2)));
    let worker = worker.step(Event::Done).step(Event::Done).step(Event::Done);
    let answer = sealed(&[1, 3, 0]);
    let worker = worker.step(Event::Bytes(answer[..3].to_vec()));
    let worker = worker.step(Event::Bytes(answer[3..].to_vec()));
    assert_eq!(name(&worker.action()), "abort");
    assert_eq!(name(&worker.step(Event::Done).action()), "abort");
}
