//! Modbus RTU frames: what goes out on the line, and what is read off it.

use rmodbus::client::ModbusRequest;
use rmodbus::consts::ModbusFunction;
use rmodbus::ModbusProto;
use vstd::prelude::*;

verus! {

/// The function codes in use on the line.
pub const READ_COILS: u8 = 0x01;

pub const READ_DISCRETE_INPUTS: u8 = 0x02;

pub const READ_HOLDING_REGISTERS: u8 = 0x03;

pub const READ_INPUT_REGISTERS: u8 = 0x04;

pub const WRITE_SINGLE_COIL: u8 = 0x05;

pub const WRITE_SINGLE_REGISTER: u8 = 0x06;

pub const WRITE_MULTIPLE_COILS: u8 = 0x0F;

pub const WRITE_MULTIPLE_REGISTERS: u8 = 0x10;

/// A checksum after one more bit: shifted down, and with the polynomial added where the bit that
/// falls out is set.
pub open spec fn crc_bit(crc: u16) -> u16 {
    if crc & 1 == 0 {
        crc >> 1
    } else {
        (crc >> 1) ^ 0xA001
    }
}

/// A checksum after eight more bits.
pub open spec fn crc_bits(crc: u16) -> u16 {
    crc_bit(crc_bit(crc_bit(crc_bit(crc_bit(crc_bit(crc_bit(crc_bit(crc))))))))
}

/// The Modbus checksum of some bytes.
#[verifier::opaque]
pub open spec fn crc16(data: Seq<u8>) -> u16
    decreases data.len(),
{
    if data.len() == 0 {
        0xFFFF
    } else {
        crc_bits(crc16(data.drop_last()) ^ (data.last() as u16))
    }
}

/// The high byte of a 16-bit word.
pub open spec fn high(word: u16) -> u8 {
    (word / 256) as u8
}

/// The low byte of a 16-bit word.
pub open spec fn low(word: u16) -> u8 {
    (word % 256) as u8
}

/// The 16-bit word with the given bytes.
pub open spec fn word(high: u8, low: u8) -> u16 {
    (high * 256 + low) as u16
}

/// A checksum as it stands at the end of a frame: low byte first.
pub open spec fn trailer(checksum: u16) -> Seq<u8> {
    seq![low(checksum), high(checksum)]
}

/// A frame body followed by its checksum.
pub open spec fn sealed(body: Seq<u8>) -> Seq<u8> {
    body + trailer(crc16(body))
}

/// The body of a request that holds one address and one further word.
pub open spec fn word_request(slave_id: u8, func: u8, address: u16, operand: u16) -> Seq<u8> {
    seq![slave_id, func, high(address), low(address), high(operand), low(operand)]
}

/// Words laid out one after the other, high byte first.
pub open spec fn word_bytes(words: Seq<u16>) -> Seq<u8> {
    Seq::new(
        2 * words.len(),
        |i: int|
            if i % 2 == 0 {
                high(words[i / 2])
            } else {
                low(words[i / 2])
            },
    )
}

/// The body of a request that writes consecutive registers.
pub open spec fn bulk_request(slave_id: u8, address: u16, values: Seq<u16>) -> Seq<u8> {
    seq![
        slave_id,
        WRITE_MULTIPLE_REGISTERS,
        high(address),
        low(address),
        high(values.len() as u16),
        low(values.len() as u16),
        (2 * values.len()) as u8,
    ] + word_bytes(values)
}

/// The operand word that switches a coil.
pub open spec fn coil_word(value: bool) -> u16 {
    if value {
        0xFF00
    } else {
        0x0000
    }
}

/// The number of registers that fit into one write request.
pub open spec fn max_bulk_registers() -> nat {
    124
}

/// The name of the fault behind a Modbus exception code.
pub open spec fn exception_name(code: u8) -> Seq<char> {
    match code {
        0x01 => "IllegalFunction"@,
        0x02 => "IllegalDataAddress"@,
        0x03 => "IllegalDataValue"@,
        0x04 => "SlaveDeviceFailure"@,
        0x05 => "Acknowledge"@,
        0x06 => "SlaveDeviceBusy"@,
        0x07 => "NegativeAcknowledge"@,
        0x08 => "MemoryParityError"@,
        0x09 => "GatewayPathUnavailable"@,
        0x10 => "GatewayTargetFailed"@,
        _ => "UnknownError"@,
    }
}

/// A frame without its last two bytes, which hold the checksum.
pub open spec fn unsealed(frame: Seq<u8>) -> Seq<u8> {
    frame.take(frame.len() - 2)
}

/// What is wrong with a frame as the answer of `slave_id` to a request with function code
/// `func`; `None` where nothing is.
pub open spec fn response_fault(slave_id: u8, func: u8, frame: Seq<u8>) -> Option<Seq<char>> {
    let n = frame.len();
    if n < 5 || n > 257 {
        Some("FrameBroken"@)
    } else if word(frame[n - 1], frame[n - 2]) != crc16(unsealed(frame)) {
        Some("FrameCRCError"@)
    } else if frame[0] != slave_id {
        Some("FrameBroken"@)
    } else if frame[1] != func {
        Some(exception_name(frame[2]))
    } else if func <= 4 && 2 * frame[2] < n - 5 {
        Some("FrameBroken"@)
    } else {
        None
    }
}

/// The data bytes of the answer to a read request: between the byte count and the checksum.
pub open spec fn payload(frame: Seq<u8>) -> Seq<u8> {
    frame.subrange(3, frame.len() - 2)
}

/// The smaller of two numbers.
pub open spec fn least(a: nat, b: nat) -> nat {
    if a <= b {
        a
    } else {
        b
    }
}

/// Up to `count` registers out of data bytes, high byte first.
pub open spec fn registers(data: Seq<u8>, count: u16) -> Seq<u16> {
    Seq::new(least(count as nat, data.len() / 2), |i: int| word(data[2 * i], data[2 * i + 1]))
}

/// One bit of a byte, counted from the lowest.
pub open spec fn bit(byte: u8, index: u8) -> bool {
    (byte >> index) & 1 == 1
}

/// Up to `count` bits out of data bytes, lowest bit of the first byte first.
pub open spec fn flags(data: Seq<u8>, count: u16) -> Seq<bool> {
    Seq::new(least(count as nat, 8 * data.len()), |i: int| bit(data[i / 8], (i % 8) as u8))
}

/// `rmodbus`: `ModbusRequest::generate_get_coils`, for an RTU request.
///
/// Claimed: the call succeeds, and the frame is slave id, function code 1, address and count
/// (both high byte first), and the checksum [`crc16`] of these, low byte first.
#[verifier::external_body]
pub(crate) fn generate_get_coils(slave_id: u8, address: u16, count: u16) -> (r: Result<
    Vec<u8>,
    String,
>)
    ensures
        match r {
            Ok(frame) => frame@ == sealed(
                word_request(slave_id, READ_COILS, address, count),
            ),
            Err(_) => false,
        },
{
    let mut frame: Vec<u8> = Vec::new();
    let mut req = ModbusRequest::new(slave_id, ModbusProto::Rtu);
    match req.generate_get_coils(address, count, &mut frame) {
        Ok(()) => Ok(frame),
        Err(kind) => Err(format!("{:?}", kind)),
    }
}

/// `rmodbus`: `ModbusRequest::generate_get_discretes`, for an RTU request.
///
/// Claimed: the call succeeds, and the frame is slave id, function code 2, address and count
/// (both high byte first), and the checksum [`crc16`] of these, low byte first.
#[verifier::external_body]
pub(crate) fn generate_get_discretes(slave_id: u8, address: u16, count: u16) -> (r: Result<
    Vec<u8>,
    String,
>)
    ensures
        match r {
            Ok(frame) => frame@ == sealed(
                word_request(slave_id, READ_DISCRETE_INPUTS, address, count),
            ),
            Err(_) => false,
        },
{
    let mut frame: Vec<u8> = Vec::new();
    let mut req = ModbusRequest::new(slave_id, ModbusProto::Rtu);
    match req.generate_get_discretes(address, count, &mut frame) {
        Ok(()) => Ok(frame),
        Err(kind) => Err(format!("{:?}", kind)),
    }
}

/// `rmodbus`: `ModbusRequest::generate_get_holdings`, for an RTU request.
///
/// Claimed: the call succeeds, and the frame is slave id, function code 3, address and count
/// (both high byte first), and the checksum [`crc16`] of these, low byte first.
#[verifier::external_body]
pub(crate) fn generate_get_holdings(slave_id: u8, address: u16, count: u16) -> (r: Result<
    Vec<u8>,
    String,
>)
    ensures
        match r {
            Ok(frame) => frame@ == sealed(
                word_request(slave_id, READ_HOLDING_REGISTERS, address, count),
            ),
            Err(_) => false,
        },
{
    let mut frame: Vec<u8> = Vec::new();
    let mut req = ModbusRequest::new(slave_id, ModbusProto::Rtu);
    match req.generate_get_holdings(address, count, &mut frame) {
        Ok(()) => Ok(frame),
        Err(kind) => Err(format!("{:?}", kind)),
    }
}

/// `rmodbus`: `ModbusRequest::generate_get_inputs`, for an RTU request.
///
/// Claimed: the call succeeds, and the frame is slave id, function code 4, address and count
/// (both high byte first), and the checksum [`crc16`] of these, low byte first.
#[verifier::external_body]
pub(crate) fn generate_get_inputs(slave_id: u8, address: u16, count: u16) -> (r: Result<
    Vec<u8>,
    String,
>)
    ensures
        match r {
            Ok(frame) => frame@ == sealed(
                word_request(slave_id, READ_INPUT_REGISTERS, address, count),
            ),
            Err(_) => false,
        },
{
    let mut frame: Vec<u8> = Vec::new();
    let mut req = ModbusRequest::new(slave_id, ModbusProto::Rtu);
    match req.generate_get_inputs(address, count, &mut frame) {
        Ok(()) => Ok(frame),
        Err(kind) => Err(format!("{:?}", kind)),
    }
}

/// `rmodbus`: `ModbusRequest::generate_set_coil`, for an RTU request.
///
/// Claimed: the call succeeds, and the frame is slave id, function code 5, address, the word
/// that switches the coil on or off, and the checksum [`crc16`] of these, low byte first.
#[verifier::external_body]
pub(crate) fn generate_set_coil(slave_id: u8, address: u16, value: bool) -> (r: Result<
    Vec<u8>,
    String,
>)
    ensures
        match r {
            Ok(frame) => frame@ == sealed(
                word_request(slave_id, WRITE_SINGLE_COIL, address, coil_word(value)),
            ),
            Err(_) => false,
        },
{
    let mut frame: Vec<u8> = Vec::new();
    let mut req = ModbusRequest::new(slave_id, ModbusProto::Rtu);
    match req.generate_set_coil(address, value, &mut frame) {
        Ok(()) => Ok(frame),
        Err(kind) => Err(format!("{:?}", kind)),
    }
}

/// `rmodbus`: `ModbusRequest::generate_set_holding`, for an RTU request.
///
/// Claimed: the call succeeds, and the frame is slave id, function code 6, address and value
/// (both high byte first), and the checksum [`crc16`] of these, low byte first.
#[verifier::external_body]
pub(crate) fn generate_set_holding(slave_id: u8, address: u16, value: u16) -> (r: Result<
    Vec<u8>,
    String,
>)
    ensures
        match r {
            Ok(frame) => frame@ == sealed(
                word_request(slave_id, WRITE_SINGLE_REGISTER, address, value),
            ),
            Err(_) => false,
        },
{
    let mut frame: Vec<u8> = Vec::new();
    let mut req = ModbusRequest::new(slave_id, ModbusProto::Rtu);
    match req.generate_set_holding(address, value, &mut frame) {
        Ok(()) => Ok(frame),
        Err(kind) => Err(format!("{:?}", kind)),
    }
}

/// `rmodbus`: `ModbusRequest::generate_set_holdings_bulk`, for an RTU request.
///
/// Claimed: up to 124 registers give slave id, function code 16, address, number of registers,
/// number of data bytes, the values high byte first, and the checksum; more of them give the
/// error `OOB`.
#[verifier::external_body]
pub(crate) fn generate_set_holdings_bulk(slave_id: u8, address: u16, values: &Vec<u16>) -> (r:
    Result<Vec<u8>, String>)
    ensures
        match r {
            Ok(frame) => values@.len() <= max_bulk_registers() && frame@ == sealed(
                bulk_request(slave_id, address, values@),
            ),
            Err(text) => values@.len() > max_bulk_registers() && text@ == "OOB"@,
        },
{
    let mut frame: Vec<u8> = Vec::new();
    let mut req = ModbusRequest::new(slave_id, ModbusProto::Rtu);
    match req.generate_set_holdings_bulk(address, values, &mut frame) {
        Ok(()) => Ok(frame),
        Err(kind) => Err(format!("{:?}", kind)),
    }
}

/// `rmodbus`: `ModbusRequest::parse_u16`, on the answer to an RTU read request.
///
/// Claimed: a frame with a fault gives the name of the fault; any other gives the registers
/// that its data bytes hold, up to `count` of them. The function panics on a sound frame
/// without data bytes.
#[verifier::external_body]
pub(crate) fn parse_u16(slave_id: u8, func: u8, count: u16, frame: &Vec<u8>) -> (r: Result<
    Vec<u16>,
    String,
>)
    requires
        1 <= func <= 4,
        frame@.len() == 5 ==> response_fault(slave_id, func, frame@) is Some,
    ensures
        match r {
            Ok(values) => response_fault(slave_id, func, frame@) is None
                && values@ == registers(payload(frame@), count),
            Err(text) => response_fault(slave_id, func, frame@) == Some(text@),
        },
{
    let func = ModbusFunction::try_from(func).unwrap();
    let proto = ModbusProto::Rtu;
    let req = ModbusRequest { tr_id: 1, unit_id: slave_id, func, reg: 0, count, proto };
    let mut values: Vec<u16> = Vec::new();
    match req.parse_u16(frame, &mut values) {
        Ok(()) => Ok(values),
        Err(kind) => Err(format!("{:?}", kind)),
    }
}

/// `rmodbus`: `ModbusRequest::parse_bool`, on the answer to an RTU read request.
///
/// Claimed: a frame with a fault gives the name of the fault; any other gives the bits of its
/// data bytes, lowest bit first, up to `count` of them.
#[verifier::external_body]
pub(crate) fn parse_bool(slave_id: u8, func: u8, count: u16, frame: &Vec<u8>) -> (r: Result<
    Vec<bool>,
    String,
>)
    requires
        1 <= func <= 4,
    ensures
        match r {
            Ok(values) => response_fault(slave_id, func, frame@) is None
                && values@ == flags(payload(frame@), count),
            Err(text) => response_fault(slave_id, func, frame@) == Some(text@),
        },
{
    let func = ModbusFunction::try_from(func).unwrap();
    let proto = ModbusProto::Rtu;
    let req = ModbusRequest { tr_id: 1, unit_id: slave_id, func, reg: 0, count, proto };
    let mut values: Vec<bool> = Vec::new();
    match req.parse_bool(frame, &mut values) {
        Ok(()) => Ok(values),
        Err(kind) => Err(format!("{:?}", kind)),
    }
}

/// `rmodbus`: `ModbusRequest::parse_ok`, on the answer to an RTU request.
///
/// Claimed: a frame with a fault gives the name of the fault, any other is accepted.
#[verifier::external_body]
pub(crate) fn parse_ok(slave_id: u8, func: u8, frame: &Vec<u8>) -> (r: Result<(), String>)
    requires
        1 <= func <= 6 || func == 0x0F || func == 0x10,
    ensures
        match r {
            Ok(_) => response_fault(slave_id, func, frame@) is None,
            Err(text) => response_fault(slave_id, func, frame@) == Some(text@),
        },
{
    let func = ModbusFunction::try_from(func).unwrap();
    let proto = ModbusProto::Rtu;
    let req = ModbusRequest { tr_id: 1, unit_id: slave_id, func, reg: 0, count: 0, proto };
    match req.parse_ok(frame) {
        Ok(()) => Ok(()),
        Err(kind) => Err(format!("{:?}", kind)),
    }
}

} // verus!
