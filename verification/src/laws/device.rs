//! What a command is for, told from the bytes on the line: what a device is asked, what it answers,
//! and what becomes of that.

use crate::command::Cmd;
use crate::data::DataView;
use crate::error::ErrorView;
use crate::exchange;
use crate::exchange::{ExchangeNextView, ExchangeView};
use crate::frame;
use crate::laws::exchange as whole;
use crate::port::{ActionView, EventView};
use vstd::prelude::*;

verus! {

/// The Modbus function that does what a command asks for.
pub open spec fn code(cmd: Cmd) -> u8 {
    match cmd {
        Cmd::ReadCoils { .. } => 1,
        Cmd::ReadDiscreteInputs { .. } => 2,
        Cmd::ReadHoldingRegisters { .. } => 3,
        Cmd::ReadInputRegisters { .. } => 4,
        Cmd::WriteSingleCoil { .. } => 5,
        Cmd::WriteSingleRegister { .. } => 6,
        Cmd::WriteMultipleRegisters { .. } => 16,
        Cmd::ScanBus { .. } => 0,
    }
}

/// The slave that a command names.
pub open spec fn slave(cmd: Cmd) -> u8 {
    match cmd {
        Cmd::ReadCoils { slave_id, .. } => slave_id,
        Cmd::ReadDiscreteInputs { slave_id, .. } => slave_id,
        Cmd::ReadHoldingRegisters { slave_id, .. } => slave_id,
        Cmd::ReadInputRegisters { slave_id, .. } => slave_id,
        Cmd::WriteSingleCoil { slave_id, .. } => slave_id,
        Cmd::WriteSingleRegister { slave_id, .. } => slave_id,
        Cmd::WriteMultipleRegisters { slave_id, .. } => slave_id,
        Cmd::ScanBus { .. } => 0,
    }
}

/// The address that a command names.
pub open spec fn address(cmd: Cmd) -> u16 {
    match cmd {
        Cmd::ReadCoils { address, .. } => address,
        Cmd::ReadDiscreteInputs { address, .. } => address,
        Cmd::ReadHoldingRegisters { address, .. } => address,
        Cmd::ReadInputRegisters { address, .. } => address,
        Cmd::WriteSingleCoil { address, .. } => address,
        Cmd::WriteSingleRegister { address, .. } => address,
        Cmd::WriteMultipleRegisters { address, .. } => address,
        Cmd::ScanBus { .. } => 0,
    }
}

/// The number that two bytes spell, high byte first.
pub open spec fn pair(bytes: Seq<u8>, i: int) -> int {
    256 * bytes[i] + bytes[i + 1]
}

/// Whether the last two bytes are the checksum of those before, low byte first.
pub open spec fn checked(bytes: Seq<u8>) -> bool {
    let n = bytes.len();
    n >= 2 && 256 * bytes[n - 1] + bytes[n - 2] == frame::crc16(bytes.take(n - 2))
}

/// Some bytes with their checksum behind them.
pub open spec fn framed(body: Seq<u8>) -> Seq<u8> {
    body.push((frame::crc16(body) % 256) as u8).push((frame::crc16(body) / 256) as u8)
}

/// Whether a command is one for a single device that fits into a frame.
pub open spec fn sendable(cmd: Cmd) -> bool {
    match cmd {
        Cmd::ScanBus { .. } => false,
        Cmd::WriteMultipleRegisters { values, .. } => values@.len() <= 124,
        _ => true,
    }
}

/// Whether these bytes ask a device for what the command asks for: they name the slave, the
/// function and the address of the command, then how many items it reads or what it writes, and
/// end in the right checksum.
pub open spec fn asks(cmd: Cmd, sent: Seq<u8>) -> bool {
    &&& sent.len() >= 8
    &&& sent[0] == slave(cmd)
    &&& sent[1] == code(cmd)
    &&& pair(sent, 2) == address(cmd)
    &&& checked(sent)
    &&& match cmd {
        Cmd::ReadCoils { count, .. } => sent.len() == 8 && pair(sent, 4) == count,
        Cmd::ReadDiscreteInputs { count, .. } => sent.len() == 8 && pair(sent, 4) == count,
        Cmd::ReadHoldingRegisters { count, .. } => sent.len() == 8 && pair(sent, 4) == count,
        Cmd::ReadInputRegisters { count, .. } => sent.len() == 8 && pair(sent, 4) == count,
        Cmd::WriteSingleRegister { value, .. } => sent.len() == 8 && pair(sent, 4) == value,
        Cmd::WriteSingleCoil { value, .. } => {
            &&& sent.len() == 8
            &&& sent[4] == if value {
                255u8
            } else {
                0
            }
            &&& sent[5] == 0
        },
        Cmd::WriteMultipleRegisters { values, .. } => {
            &&& sent.len() == 9 + 2 * values@.len()
            &&& pair(sent, 4) == values@.len()
            &&& sent[6] == 2 * values@.len()
            &&& forall|i: int|
                0 <= i < values@.len() ==> pair(sent, 7 + 2 * i) == #[trigger] values@[i]
        },
        Cmd::ScanBus { .. } => false,
    }
}

/// The request of a command asks for what the command asks for.
proof fn lemma_asks(cmd: Cmd, sent: Seq<u8>)
    requires
        exchange::request_frame(cmd) == Ok::<Seq<u8>, ErrorView>(sent),
    ensures
        asks(cmd, sent),
{
    match cmd {
        Cmd::WriteMultipleRegisters { slave_id, address, values, .. } => {
            let body = frame::bulk_request(slave_id, address, values@);
            assert(sent.take(sent.len() - 2) =~= body);
            assert forall|i: int| 0 <= i < values@.len() implies pair(sent, 7 + 2 * i)
                == #[trigger] values@[i] by {
                assert((2 * i) / 2 == i && (2 * i + 1) / 2 == i);
                assert(sent[7 + 2 * i] == frame::word_bytes(values@)[2 * i]);
                assert(sent[8 + 2 * i] == frame::word_bytes(values@)[2 * i + 1]);
            }
        },
        _ => {
            assert(sent.take(6) =~= sent.take(sent.len() - 2));
            assert(exists|body: Seq<u8>|
                body.len() == 6 && sent == #[trigger] frame::sealed(body) && sent.take(6) =~= body);
        },
    }
}

/// A command starts by clearing the line. Then a request is written that asks for what the command
/// asks for, if it fits into a frame. Else nothing is written: a command that writes more than 124
/// registers fails as out of bounds, and a scan is refused.
pub proof fn law_command_asks_the_device(cmd: Cmd, cleared: EventView)
    ensures
        ExchangeView::start(cmd).action() == ActionView::ClearAll,
        match whole::run(ExchangeView::start(cmd), seq![cleared]) {
            ExchangeNextView::Running(next) => match next.action() {
                ActionView::Write(sent) => sendable(cmd) && asks(cmd, sent),
                _ => false,
            },
            ExchangeNextView::Finished(Err(error)) => {
                &&& !sendable(cmd)
                &&& error == if cmd is ScanBus {
                    ErrorView::ScanDispatched
                } else {
                    ErrorView::BuildFrame("OOB"@)
                }
            },
            _ => false,
        },
{
    reveal_with_fuel(whole::run, 2);
    if let Ok(sent) = exchange::request_frame(cmd) {
        lemma_asks(cmd, sent);
    }
}

/// Whatever a command writes, whenever it does, asks for what the command asks for.
pub proof fn law_every_write_asks_the_device(
    cmd: Cmd,
    events: Seq<EventView>,
    next: ExchangeView,
    sent: Seq<u8>,
)
    requires
        whole::run(ExchangeView::start(cmd), events) == ExchangeNextView::Running(next),
        next.action() == ActionView::Write(sent),
    ensures
        asks(cmd, sent),
        events.len() == 1,
{
    reveal_with_fuel(whole::run, 6);
    if events.len() >= 5 {
        whole::law_command_ends(cmd, events);
    }
    whole::law_only_the_request_is_written(cmd, events, sent);
    lemma_asks(cmd, sent);
}

/// The bytes that came back for a read of `len` bytes.
pub open spec fn bytes_of(event: EventView, len: int) -> Option<Seq<u8>> {
    match event {
        EventView::Bytes(bytes) => if bytes.len() == len {
            Some(bytes)
        } else {
            None
        },
        _ => None,
    }
}

/// How many bytes follow the three that an answer starts with: the two of the checksum in an
/// exception, as many as the third byte says and the checksum in the answer to a read, and five in
/// the answer to a write.
pub open spec fn rest_len(head: Seq<u8>) -> int {
    if head[1] >= 128 {
        2
    } else if head[1] <= 4 {
        head[2] + 2
    } else {
        5
    }
}

/// What a sound answer to a command says; `None` for the answer to a register request that has no
/// data byte. No more items are taken than the command asks for.
pub open spec fn says(cmd: Cmd, answer: Seq<u8>) -> Option<DataView> {
    let data = answer.len() - 5;
    let words = |count: u16|
        Seq::new(
            if count <= data / 2 {
                count as nat
            } else {
                (data / 2) as nat
            },
            |i: int| pair(answer, 3 + 2 * i) as u16,
        );
    let bits = |count: u16|
        Seq::new(
            if count <= 8 * data {
                count as nat
            } else {
                (8 * data) as nat
            },
            |i: int| (answer[3 + i / 8] >> ((i % 8) as u8)) & 1 == 1,
        );
    match cmd {
        Cmd::ReadHoldingRegisters { slave_id, address, count, .. } => if data == 0 {
            None
        } else {
            Some(DataView::HoldingRegisters { slave_id, address, values: words(count) })
        },
        Cmd::ReadInputRegisters { slave_id, address, count, .. } => if data == 0 {
            None
        } else {
            Some(DataView::InputRegisters { slave_id, address, values: words(count) })
        },
        Cmd::ReadCoils { slave_id, address, count, .. } => Some(
            DataView::Coils { slave_id, address, values: bits(count) },
        ),
        Cmd::ReadDiscreteInputs { slave_id, address, count, .. } => Some(
            DataView::DiscreteInputs { slave_id, address, values: bits(count) },
        ),
        Cmd::WriteSingleRegister { slave_id, address, value, .. } => Some(
            DataView::WriteRegister { slave_id, address, value },
        ),
        Cmd::WriteSingleCoil { slave_id, address, value, .. } => Some(
            DataView::WriteCoil { slave_id, address, value },
        ),
        Cmd::WriteMultipleRegisters { slave_id, address, values, .. } => Some(
            DataView::WriteRegisters { slave_id, address, count: values@.len() },
        ),
        Cmd::ScanBus { .. } => None,
    }
}

/// What a sound answer means is what it says.
proof fn lemma_meaning(cmd: Cmd, answer: Seq<u8>)
    requires
        answer.len() >= 5,
        !(cmd is ScanBus),
    ensures
        exchange::meaning(cmd, answer) == says(cmd, answer),
{
    match (exchange::meaning(cmd, answer), says(cmd, answer)) {
        (
            Some(DataView::HoldingRegisters { values, .. }),
            Some(DataView::HoldingRegisters { values: said, .. }),
        ) => assert(values =~= said),
        (
            Some(DataView::InputRegisters { values, .. }),
            Some(DataView::InputRegisters { values: said, .. }),
        ) => assert(values =~= said),
        (Some(DataView::Coils { values, .. }), Some(DataView::Coils { values: said, .. })) =>
            assert(values =~= said),
        (
            Some(DataView::DiscreteInputs { values, .. }),
            Some(DataView::DiscreteInputs { values: said, .. }),
        ) => assert(values =~= said),
        _ => {},
    }
}

/// How a command ends whose request was written, told from what was read.
pub open spec fn verdict(cmd: Cmd, first: EventView, rest: EventView) -> ExchangeNextView {
    match bytes_of(first, 3) {
        None => ExchangeNextView::Finished(Err(ErrorView::ReadHeader)),
        Some(head) => if head[1] >= 128 {
            ExchangeNextView::Finished(
                Err(ErrorView::Exception { func: (head[1] - 128) as u8, code: head[2] }),
            )
        } else if head[1] != code(cmd) {
            ExchangeNextView::Finished(
                Err(ErrorView::UnexpectedFunction { got: head[1], expected: code(cmd) }),
            )
        } else {
            match bytes_of(rest, rest_len(head)) {
                None => ExchangeNextView::Finished(Err(ErrorView::ReadBody)),
                Some(tail) => {
                    let answer = head + tail;
                    if answer.len() > 257 {
                        ExchangeNextView::Finished(Err(ErrorView::Parse("FrameBroken"@)))
                    } else if !checked(answer) {
                        ExchangeNextView::Finished(Err(ErrorView::Parse("FrameCRCError"@)))
                    } else if answer[0] != slave(cmd) {
                        ExchangeNextView::Finished(Err(ErrorView::Parse("FrameBroken"@)))
                    } else {
                        match says(cmd, answer) {
                            Some(data) => ExchangeNextView::Finished(Ok(data)),
                            None => ExchangeNextView::Aborted,
                        }
                    }
                },
            }
        },
    }
}

/// After its request a command waits until that has left, reads three bytes, and then as many as
/// those call for. If the request cannot be written, that is the end of it.
pub proof fn law_command_reads_the_answer(
    cmd: Cmd,
    cleared: EventView,
    written: EventView,
    flushed: EventView,
    first: EventView,
)
    requires
        sendable(cmd),
    ensures
        ({
            let start = ExchangeView::start(cmd);
            let events = seq![cleared, written, flushed, first];
            if written is Done {
                &&& match whole::run(start, events.take(2)) {
                    ExchangeNextView::Running(next) => next.action() == ActionView::Flush,
                    _ => false,
                }
                &&& match whole::run(start, events.take(3)) {
                    ExchangeNextView::Running(next) => next.action() == ActionView::Read(3),
                    _ => false,
                }
                &&& match whole::run(start, events) {
                    ExchangeNextView::Running(next) => match bytes_of(first, 3) {
                        Some(head) => {
                            &&& head[1] >= 128 || head[1] == code(cmd)
                            &&& next.action() == ActionView::Read(rest_len(head) as nat)
                        },
                        None => false,
                    },
                    _ => match bytes_of(first, 3) {
                        Some(head) => head[1] < 128 && head[1] != code(cmd),
                        None => true,
                    },
                }
            } else {
                whole::run(start, events.take(2)) == ExchangeNextView::Finished(
                    Err::<DataView, ErrorView>(ErrorView::SerialWrite),
                )
            }
        }),
{
    reveal_with_fuel(whole::run, 6);
    let events = seq![cleared, written, flushed, first];
    assert(events.take(2).drop_last() =~= seq![cleared]);
    assert(events.take(3).drop_last() =~= events.take(2));
    assert(events.drop_last() =~= events.take(3));
    assert(seq![cleared].drop_last() =~= Seq::<EventView>::empty());
}

/// A command whose request was written ends as what was read calls for: with what a sound answer
/// from the right slave says, and else with the reason why there is none.
pub proof fn law_command_tells_what_was_read(
    cmd: Cmd,
    cleared: EventView,
    flushed: EventView,
    first: EventView,
    rest: EventView,
)
    requires
        sendable(cmd),
    ensures
        whole::run(
            ExchangeView::start(cmd),
            seq![cleared, EventView::Done, flushed, first, rest],
        ) == verdict(cmd, first, rest),
{
    let events = seq![cleared, EventView::Done, flushed, first, rest];
    whole::law_command_ending(cmd, events);
    if let Some(head) = bytes_of(first, 3) {
        if head[1] == code(cmd) {
            if let Some(tail) = bytes_of(rest, rest_len(head)) {
                let answer = head + tail;
                assert(frame::unsealed(answer) == answer.take(answer.len() - 2));
                lemma_meaning(cmd, answer);
            }
        }
    }
}

/// The request that a command writes.
pub open spec fn request(cmd: Cmd) -> Seq<u8> {
    whole::run(ExchangeView::start(cmd), seq![EventView::Done])->Running_0.action()->Write_0
}

/// How a command ends that is answered by `answer`.
pub open spec fn answered_by(cmd: Cmd, answer: Seq<u8>) -> ExchangeNextView {
    whole::run(
        ExchangeView::start(cmd),
        seq![
            EventView::Done,
            EventView::Done,
            EventView::Done,
            EventView::Bytes(answer.take(3)),
            EventView::Bytes(answer.skip(3)),
        ],
    )
}

proof fn lemma_framed(body: Seq<u8>)
    ensures
        framed(body).len() == body.len() + 2,
        checked(framed(body)),
        framed(body).take(body.len() as int) == body,
{
    assert(framed(body).take(body.len() as int) =~= body);
}

/// The answer of a device with registers to a request for some of them: it reads the function, the
/// first address and the number of registers off the request.
pub open spec fn register_answer(
    registers: spec_fn(u8, int) -> u16,
    request: Seq<u8>,
) -> Seq<u8> {
    let func = request[1];
    framed(
        seq![request[0], func, (2 * pair(request, 4)) as u8] + Seq::new(
            (2 * pair(request, 4)) as nat,
            |i: int|
                if i % 2 == 0 {
                    (registers(func, pair(request, 2) + i / 2) / 256) as u8
                } else {
                    (registers(func, pair(request, 2) + i / 2) % 256) as u8
                },
        ),
    )
}

/// A command that reads registers gives back what the device has in the registers that the command
/// names, from its address on and as many as it asks for. A frame holds up to 126 of them.
pub proof fn law_registers_of_the_device(cmd: Cmd, registers: spec_fn(u8, int) -> u16)
    requires
        match cmd {
            Cmd::ReadHoldingRegisters { count, .. } => 1 <= count <= 126,
            Cmd::ReadInputRegisters { count, .. } => 1 <= count <= 126,
            _ => false,
        },
    ensures
        answered_by(cmd, register_answer(registers, request(cmd))) == ExchangeNextView::Finished(
            match cmd {
                Cmd::ReadHoldingRegisters { slave_id, address, count, .. } => Ok(
                    DataView::HoldingRegisters {
                        slave_id,
                        address,
                        values: Seq::new(count as nat, |i: int| registers(3, address + i)),
                    },
                ),
                Cmd::ReadInputRegisters { slave_id, address, count, .. } => Ok(
                    DataView::InputRegisters {
                        slave_id,
                        address,
                        values: Seq::new(count as nat, |i: int| registers(4, address + i)),
                    },
                ),
                _ => Err(ErrorView::ReadBody),
            },
        ),
{
    law_command_asks_the_device(cmd, EventView::Done);
    let sent = request(cmd);
    let func = sent[1];
    let answer = register_answer(registers, sent);
    let n = pair(sent, 4);
    let first = pair(sent, 2);
    let words = Seq::new(
        (2 * n) as nat,
        |i: int|
            if i % 2 == 0 {
                (registers(func, first + i / 2) / 256) as u8
            } else {
                (registers(func, first + i / 2) % 256) as u8
            },
    );
    let body = seq![sent[0], func, (2 * n) as u8] + words;
    lemma_framed(body);
    assert(answer == framed(body));
    assert(answer.take(3) + answer.skip(3) =~= answer);
    assert(answer.take(answer.len() - 2) =~= body);
    law_command_tells_what_was_read(
        cmd,
        EventView::Done,
        EventView::Done,
        EventView::Bytes(answer.take(3)),
        EventView::Bytes(answer.skip(3)),
    );
    assert forall|i: int| 0 <= i < n implies #[trigger] pair(answer, 3 + 2 * i) == registers(
        func,
        first + i,
    ) by {
        assert((2 * i) / 2 == i && (2 * i + 1) / 2 == i);
        assert(answer[3 + 2 * i] == words[2 * i]);
        assert(answer[4 + 2 * i] == words[2 * i + 1]);
    }
    match (says(cmd, answer), cmd) {
        (
            Some(DataView::HoldingRegisters { values, .. }),
            Cmd::ReadHoldingRegisters { address, count, .. },
        ) => {
            assert(values =~= Seq::new(count as nat, |i: int| registers(3, address + i)));
        },
        (
            Some(DataView::InputRegisters { values, .. }),
            Cmd::ReadInputRegisters { address, count, .. },
        ) => {
            assert(values =~= Seq::new(count as nat, |i: int| registers(4, address + i)));
        },
        _ => {},
    }
}

/// Whether these bytes hold the bits that a request asks a device for, lowest bit first: it reads
/// the function, the first address and the number of bits off the request.
pub open spec fn hold_bits(
    bits: spec_fn(u8, int) -> bool,
    request: Seq<u8>,
    bytes: Seq<u8>,
) -> bool {
    &&& bytes.len() == (pair(request, 4) + 7) / 8
    &&& forall|i: int|
        0 <= i < pair(request, 4) ==> ((bytes[i / 8] >> ((i % 8) as u8)) & 1 == 1)
            == #[trigger] bits(request[1], pair(request, 2) + i)
}

/// A command that reads coils or discrete inputs gives back what the device has at the addresses
/// that the command names, from its address on and as many as it asks for. A frame holds up to
/// 2016 of them.
pub proof fn law_bits_of_the_device(
    cmd: Cmd,
    bits: spec_fn(u8, int) -> bool,
    bytes: Seq<u8>,
)
    requires
        match cmd {
            Cmd::ReadCoils { count, .. } => count <= 2016,
            Cmd::ReadDiscreteInputs { count, .. } => count <= 2016,
            _ => false,
        },
        hold_bits(bits, request(cmd), bytes),
    ensures
        answered_by(
            cmd,
            framed(seq![request(cmd)[0], request(cmd)[1], bytes.len() as u8] + bytes),
        ) == ExchangeNextView::Finished(
            match cmd {
                Cmd::ReadCoils { slave_id, address, count, .. } => Ok(
                    DataView::Coils {
                        slave_id,
                        address,
                        values: Seq::new(count as nat, |i: int| bits(1, address + i)),
                    },
                ),
                Cmd::ReadDiscreteInputs { slave_id, address, count, .. } => Ok(
                    DataView::DiscreteInputs {
                        slave_id,
                        address,
                        values: Seq::new(count as nat, |i: int| bits(2, address + i)),
                    },
                ),
                _ => Err(ErrorView::ReadBody),
            },
        ),
{
    law_command_asks_the_device(cmd, EventView::Done);
    let sent = request(cmd);
    let n = pair(sent, 4);
    let first = pair(sent, 2);
    let body = seq![sent[0], sent[1], bytes.len() as u8] + bytes;
    let answer = framed(body);
    lemma_framed(body);
    assert(answer.take(3) + answer.skip(3) =~= answer);
    assert(answer.take(answer.len() - 2) =~= body);
    law_command_tells_what_was_read(
        cmd,
        EventView::Done,
        EventView::Done,
        EventView::Bytes(answer.take(3)),
        EventView::Bytes(answer.skip(3)),
    );
    assert forall|i: int| 0 <= i < n implies ((#[trigger] answer[3 + i / 8] >> ((i % 8) as u8)) & 1
        == 1) == bits(sent[1], first + i) by {
        assert(answer[3 + i / 8] == bytes[i / 8]);
    }
    match (says(cmd, answer), cmd) {
        (Some(DataView::Coils { values, .. }), Cmd::ReadCoils { address, count, .. }) => {
            assert(values =~= Seq::new(count as nat, |i: int| bits(1, address + i)));
        },
        (
            Some(DataView::DiscreteInputs { values, .. }),
            Cmd::ReadDiscreteInputs { address, count, .. },
        ) => {
            assert(values =~= Seq::new(count as nat, |i: int| bits(2, address + i)));
        },
        _ => {},
    }
}

/// The registers of a device after it carried out a write that it read off the line.
pub open spec fn registers_after(
    registers: spec_fn(int) -> u16,
    request: Seq<u8>,
) -> spec_fn(int) -> u16 {
    |place: int|
        if request[1] == 6 {
            if place == pair(request, 2) {
                pair(request, 4) as u16
            } else {
                registers(place)
            }
        } else if request[1] == 16 && pair(request, 2) <= place < pair(request, 2) + pair(
            request,
            4,
        ) {
            pair(request, 7 + 2 * (place - pair(request, 2))) as u16
        } else {
            registers(place)
        }
}

/// A write leaves the values of the command in the registers that the command names, and all other
/// registers as they were. When the device acknowledges it, by the start of the request sent back,
/// the command succeeds, and gives back what was written where.
pub proof fn law_write_reaches_the_registers(cmd: Cmd, registers: spec_fn(int) -> u16, place: int)
    requires
        cmd is WriteSingleRegister || cmd is WriteMultipleRegisters,
        sendable(cmd),
    ensures
        registers_after(registers, request(cmd))(place) == match cmd {
            Cmd::WriteSingleRegister { address, value, .. } => if place == address {
                value
            } else {
                registers(place)
            },
            Cmd::WriteMultipleRegisters { address, values, .. } => if address <= place < address
                + values@.len() {
                values@[place - address]
            } else {
                registers(place)
            },
            _ => registers(place),
        },
        answered_by(cmd, framed(request(cmd).take(6))) == ExchangeNextView::Finished(
            match cmd {
                Cmd::WriteSingleRegister { slave_id, address, value, .. } => Ok(
                    DataView::WriteRegister { slave_id, address, value },
                ),
                Cmd::WriteMultipleRegisters { slave_id, address, values, .. } => Ok(
                    DataView::WriteRegisters { slave_id, address, count: values@.len() },
                ),
                _ => Err(ErrorView::ReadBody),
            },
        ),
{
    law_command_asks_the_device(cmd, EventView::Done);
    if let Cmd::WriteMultipleRegisters { address, values, .. } = cmd {
        if address <= place < address + values@.len() {
            assert(pair(request(cmd), 7 + 2 * (place - address)) == values@[place - address]);
        }
    }
    lemma_acknowledged(cmd);
}

proof fn lemma_acknowledged(cmd: Cmd)
    requires
        cmd is WriteSingleRegister || cmd is WriteMultipleRegisters || cmd is WriteSingleCoil,
        sendable(cmd),
    ensures
        answered_by(cmd, framed(request(cmd).take(6))) == ExchangeNextView::Finished(
            match says(cmd, framed(request(cmd).take(6))) {
                Some(data) => Ok(data),
                None => Err(ErrorView::ReadBody),
            },
        ),
        request(cmd).len() == 8 ==> framed(request(cmd).take(6)) == request(cmd),
{
    law_command_asks_the_device(cmd, EventView::Done);
    let sent = request(cmd);
    let body = sent.take(6);
    let answer = framed(body);
    lemma_framed(body);
    assert(answer.take(3) + answer.skip(3) =~= answer);
    assert(answer.take(answer.len() - 2) =~= body);
    law_command_tells_what_was_read(
        cmd,
        EventView::Done,
        EventView::Done,
        EventView::Bytes(answer.take(3)),
        EventView::Bytes(answer.skip(3)),
    );
    if sent.len() == 8 {
        assert(answer =~= sent);
    }
}

/// A write of a single register is acknowledged by its slave, the function 6, its address and its
/// value, and the checksum of these; and that is the request that was written.
pub proof fn law_register_acknowledgement(cmd: Cmd, answer: Seq<u8>)
    requires
        answer.len() == 8,
        checked(answer),
        match cmd {
            Cmd::WriteSingleRegister { slave_id, address, value, .. } => {
                &&& answer[0] == slave_id
                &&& answer[1] == 6
                &&& pair(answer, 2) == address
                &&& pair(answer, 4) == value
            },
            _ => false,
        },
    ensures
        request(cmd) == answer,
        answered_by(cmd, answer) == ExchangeNextView::Finished(
            match cmd {
                Cmd::WriteSingleRegister { slave_id, address, value, .. } => Ok(
                    DataView::WriteRegister { slave_id, address, value },
                ),
                _ => Err(ErrorView::ReadBody),
            },
        ),
{
    law_command_asks_the_device(cmd, EventView::Done);
    assert(answer.take(6) =~= request(cmd).take(6));
    assert(answer.take(answer.len() - 2) =~= answer.take(6));
    assert(request(cmd).take(request(cmd).len() - 2) =~= request(cmd).take(6));
    assert(answer =~= request(cmd));
    lemma_acknowledged(cmd);
}

/// A write of a single coil is acknowledged by its slave, the function 5, its address and the word
/// that switches it, and the checksum of these; and that is the request that was written.
pub proof fn law_coil_acknowledgement(cmd: Cmd, answer: Seq<u8>)
    requires
        answer.len() == 8,
        checked(answer),
        match cmd {
            Cmd::WriteSingleCoil { slave_id, address, value, .. } => {
                &&& answer[0] == slave_id
                &&& answer[1] == 5
                &&& pair(answer, 2) == address
                &&& pair(answer, 4) == if value {
                    65280int
                } else {
                    0
                }
            },
            _ => false,
        },
    ensures
        request(cmd) == answer,
        answered_by(cmd, answer) == ExchangeNextView::Finished(
            match cmd {
                Cmd::WriteSingleCoil { slave_id, address, value, .. } => Ok(
                    DataView::WriteCoil { slave_id, address, value },
                ),
                _ => Err(ErrorView::ReadBody),
            },
        ),
{
    law_command_asks_the_device(cmd, EventView::Done);
    assert(answer.take(6) =~= request(cmd).take(6));
    assert(answer.take(answer.len() - 2) =~= answer.take(6));
    assert(request(cmd).take(request(cmd).len() - 2) =~= request(cmd).take(6));
    assert(answer =~= request(cmd));
    lemma_acknowledged(cmd);
}

/// A frame that is taken for the answer to a command has the fault of the frame, if it has one, and
/// else what it says.
pub proof fn law_frame_tells_what_it_says(cmd: Cmd, answer: Seq<u8>)
    requires
        !(cmd is ScanBus),
    ensures
        exchange::decoded(cmd, answer) == match frame::response_fault(
            slave(cmd),
            code(cmd),
            answer,
        ) {
            Some(fault) => Some(Err(ErrorView::Parse(fault))),
            None => match says(cmd, answer) {
                Some(data) => Some(Ok(data)),
                None => None,
            },
        },
{
    if answer.len() >= 5 {
        lemma_meaning(cmd, answer);
    }
}

} // verus!
