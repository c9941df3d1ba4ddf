use modbus_mqtt_bridge::command::Cmd;
use modbus_mqtt_bridge::data::Data;
use modbus_mqtt_bridge::error::Error;
use modbus_mqtt_bridge::exchange::{build_request, decode_answer};

fn read_coils(slave_id: u8, address: u16, count: u16) -> Cmd {
    Cmd::ReadCoils { slave_id, address, count, request_id: None }
}

fn read_discretes(slave_id: u8, address: u16, count: u16) -> Cmd {
    Cmd::ReadDiscreteInputs { slave_id, address, count, request_id: None }
}

fn read_holdings(slave_id: u8, address: u16, count: u16) -> Cmd {
    Cmd::ReadHoldingRegisters { slave_id, address, count, request_id: None }
}

fn read_inputs(slave_id: u8, address: u16, count: u16) -> Cmd {
    Cmd::ReadInputRegisters { slave_id, address, count, request_id: None }
}

fn write_registers(slave_id: u8, address: u16, values: Vec<u16>) -> Cmd {
    Cmd::WriteMultipleRegisters { slave_id, address, values, request_id: None }
}

fn write_register(slave_id: u8, address: u16, value: u16) -> Cmd {
    Cmd::WriteSingleRegister { slave_id, address, value, request_id: None }
}

fn write_coil(slave_id: u8, address: u16, value: bool) -> Cmd {
    Cmd::WriteSingleCoil { slave_id, address, value, request_id: None }
}

fn sealed(body: &[u8]) -> Vec<u8> {
    let mut crc: u16 = 0xFFFF;
    for byte in body {
        crc ^= u16::from(*byte);
        for _ in 0..8 {
            crc = if crc & 1 == 0 { crc >> 1 } else { (crc >> 1) ^ 0xA001 };
        }
    }
    let mut frame = body.to_vec();
    frame.extend_from_slice(&crc.to_le_bytes());
    frame
}

#[test]
fn read_requests_are_laid_out() {
    assert_eq!(
        build_request(&read_coils(4, 0x0A, 0x0D)).unwrap(),
        vec![0x04, 0x01, 0x00, 0x0A, 0x00, 0x0D, 0xDD, 0x98]
    );
    assert_eq!(
        build_request(&read_discretes(4, 0x0A, 0x0D)).unwrap(),
        vec![0x04, 0x02, 0x00, 0x0A, 0x00, 0x0D, 0x99, 0x98]
    );
    assert_eq!(
        build_request(&read_holdings(1, 0, 2)).unwrap(),
        vec![0x01, 0x03, 0x00, 0x00, 0x00, 0x02, 0xC4, 0x0B]
    );
    assert_eq!(
        build_request(&read_inputs(1, 0, 2)).unwrap(),
        vec![0x01, 0x04, 0x00, 0x00, 0x00, 0x02, 0x71, 0xCB]
    );
    assert_eq!(
        build_request(&read_inputs(7, 0xABCD, 0x1234)).unwrap(),
        sealed(&[0x07, 0x04, 0xAB, 0xCD, 0x12, 0x34])
    );
}

#[test]
fn write_requests_are_laid_out() {
    assert_eq!(
        build_request(&write_coil(0x11, 0xAC, true)).unwrap(),
        vec![0x11, 0x05, 0x00, 0xAC, 0xFF, 0x00, 0x4E, 0x8B]
    );
    assert_eq!(
        build_request(&write_coil(0x11, 0xAC, false)).unwrap(),
        sealed(&[0x11, 0x05, 0x00, 0xAC, 0x00, 0x00])
    );
    assert_eq!(
        build_request(&write_register(0x11, 1, 3)).unwrap(),
        vec![0x11, 0x06, 0x00, 0x01, 0x00, 0x03, 0x9A, 0x9B]
    );
    assert_eq!(
        build_request(&write_registers(0x11, 1, vec![0x000A, 0x0102])).unwrap(),
        vec![0x11, 0x10, 0x00, 0x01, 0x00, 0x02, 0x04, 0x00, 0x0A, 0x01, 0x02, 0xC6, 0xF0]
    );
    assert_eq!(
        build_request(&write_registers(0x11, 1, vec![])).unwrap(),
        sealed(&[0x11, 0x10, 0x00, 0x01, 0x00, 0x00, 0x00])
    );
}

#[test]
fn a_write_request_has_room_for_124_registers() {
    let frame = build_request(&write_registers(1, 0, vec![0xABCD; 124])).unwrap();
    assert_eq!(frame.len(), 7 + 248 + 2);
    assert_eq!(&frame[..7], &[0x01, 0x10, 0x00, 0x00, 0x00, 124, 248]);
    assert_eq!(
        build_request(&write_registers(1, 0, vec![0xABCD; 125])),
        Err(Error::BuildFrame("OOB".to_string()))
    );
    assert_eq!(
        build_request(&write_registers(1, 0, vec![0xABCD; 1000])),
        Err(Error::BuildFrame("OOB".to_string()))
    );
}

#[test]
fn a_scan_has_no_request_frame() {
    let scan =
        Cmd::ScanBus { baud_rates: vec![9600], slave_id_start: 1, slave_id_end: 2, request_id: None };
    assert_eq!(build_request(&scan), Err(Error::ScanDispatched));
}

#[test]
fn registers_come_out_of_an_answer() {
    let holdings = vec![0x01, 0x03, 0x04, 0x00, 0x06, 0x00, 0x05, 0xDA, 0x31];
    assert_eq!(
        decode_answer(&read_holdings(1, 0, 2), &holdings),
        Some(Ok(Data::HoldingRegisters { slave_id: 1, address: 0, values: vec![6, 5] }))
    );
    let inputs = vec![0x01, 0x04, 0x04, 0x00, 0x06, 0x00, 0x05, 0xDB, 0x86];
    assert_eq!(
        decode_answer(&read_inputs(1, 0, 2), &inputs),
        Some(Ok(Data::InputRegisters { slave_id: 1, address: 0, values: vec![6, 5] }))
    );
    assert_eq!(
        decode_answer(&read_holdings(1, 9, 1), &holdings),
        Some(Ok(Data::HoldingRegisters { slave_id: 1, address: 9, values: vec![6] }))
    );
    assert_eq!(
        decode_answer(&read_holdings(1, 9, 5), &holdings),
        Some(Ok(Data::HoldingRegisters { slave_id: 1, address: 9, values: vec![6, 5] }))
    );
}

#[test]
fn bits_come_out_of_an_answer() {
    let expected = vec![
        false, true, false, true, false, false, false, false, true, false, false, false, true,
    ];
    let coils = vec![0x04, 0x01, 0x02, 0x0A, 0x11, 0xB3, 0x50];
    assert_eq!(
        decode_answer(&read_coils(4, 0x0A, 13), &coils),
        Some(Ok(Data::Coils { slave_id: 4, address: 0x0A, values: expected.clone() }))
    );
    let discretes = vec![0x04, 0x02, 0x02, 0x0A, 0x11, 0xB3, 0x14];
    assert_eq!(
        decode_answer(&read_discretes(4, 0x0A, 13), &discretes),
        Some(Ok(Data::DiscreteInputs { slave_id: 4, address: 0x0A, values: expected }))
    );
}

#[test]
fn writes_are_acknowledged() {
    let coil = vec![0x11, 0x05, 0x00, 0xAC, 0xFF, 0x00, 0x4E, 0x8B];
    assert_eq!(
        decode_answer(&write_coil(0x11, 0xAC, true), &coil),
        Some(Ok(Data::WriteCoil { slave_id: 0x11, address: 0xAC, value: true }))
    );
    let register = vec![0x11, 0x06, 0x00, 0x01, 0x00, 0x03, 0x9A, 0x9B];
    assert_eq!(
        decode_answer(&write_register(0x11, 1, 3), &register),
        Some(Ok(Data::WriteRegister { slave_id: 0x11, address: 1, value: 3 }))
    );
    let registers = vec![0x11, 0x10, 0x00, 0x01, 0x00, 0x02, 0x12, 0x98];
    assert_eq!(
        decode_answer(&write_registers(0x11, 1, vec![10, 258]), &registers),
        Some(Ok(Data::WriteRegisters { slave_id: 0x11, address: 1, count: 2 }))
    );
}

#[test]
fn damage_is_noticed() {
    let cmd = read_holdings(1, 0, 2);
    let sound = vec![0x01, 0x03, 0x04, 0x00, 0x06, 0x00, 0x05, 0xDA, 0x31];
    for i in 0..sound.len() {
        for change in 1..=255u8 {
            let mut damaged = sound.clone();
            damaged[i] ^= change;
            assert_eq!(
                decode_answer(&cmd, &damaged),
                Some(Err(Error::Parse("FrameCRCError".to_string())))
            );
        }
    }
    let broken = Some(Err(Error::Parse("FrameBroken".to_string())));
    assert_eq!(decode_answer(&cmd, &sound[..4].to_vec()), broken);
    assert_eq!(decode_answer(&read_holdings(2, 0, 2), &sound), broken);
    assert_eq!(decode_answer(&cmd, &sealed(&[1, 3, 1, 0, 6, 0, 5])), broken);
    let mut long = vec![1, 3, 255];
    long.extend_from_slice(&[0; 253]);
    assert_eq!(long.len(), 256);
    assert_eq!(decode_answer(&cmd, &sealed(&long)), broken);
    assert_eq!(
        decode_answer(&write_register(2, 1, 3), &sealed(&[0x11, 0x06, 0, 1, 0, 3])),
        broken
    );
}

#[test]
fn exception_codes_have_names() {
    let names = [
        (0, "UnknownError"),
        (1, "IllegalFunction"),
        (2, "IllegalDataAddress"),
        (3, "IllegalDataValue"),
        (4, "SlaveDeviceFailure"),
        (5, "Acknowledge"),
        (6, "SlaveDeviceBusy"),
        (7, "NegativeAcknowledge"),
        (8, "MemoryParityError"),
        (9, "GatewayPathUnavailable"),
        (10, "UnknownError"),
        (16, "GatewayTargetFailed"),
    ];
    for (code, name) in names {
        assert_eq!(
            decode_answer(&read_coils(1, 0, 8), &sealed(&[1, 0x81, code])),
            Some(Err(Error::Parse(name.to_string())))
        );
        assert_eq!(
            decode_answer(&write_coil(1, 0, true), &sealed(&[1, 0x85, code])),
            Some(Err(Error::Parse(name.to_string())))
        );
    }
}

#[test]
fn an_answer_without_data() {
    assert_eq!(decode_answer(&read_holdings(1, 0, 2), &sealed(&[1, 3, 0])), None);
    assert_eq!(decode_answer(&read_inputs(1, 0, 2), &sealed(&[1, 4, 7])), None);
    assert_eq!(
        decode_answer(&read_coils(1, 0, 8), &sealed(&[1, 1, 0])),
        Some(Ok(Data::Coils { slave_id: 1, address: 0, values: vec![] }))
    );
    assert_eq!(
        decode_answer(&read_holdings(1, 0, 2), &sealed(&[1, 3, 1, 9])),
        Some(Ok(Data::HoldingRegisters { slave_id: 1, address: 0, values: vec![] }))
    );
}
