//! What holds of a command from start to end.

use crate::command::Cmd;
use crate::data::DataView;
use crate::error::ErrorView;
use crate::exchange;
use crate::exchange::{ExchangeNextView, ExchangeView};
use crate::frame;
use crate::port::{ActionView, EventView};
use crate::response;
use crate::response::Header;
use vstd::prelude::*;

verus! {

/// What a command comes to when its actions are answered by `events`, one after the other.
pub open spec fn run(start: ExchangeView, events: Seq<EventView>) -> ExchangeNextView
    decreases events.len(),
{
    if events.len() == 0 {
        ExchangeNextView::Running(start)
    } else {
        match run(start, events.drop_last()) {
            ExchangeNextView::Running(exchange) => exchange.next(events.last()),
            ended => ended,
        }
    }
}

/// The events of a command whose request was written and whose answer is `answer`.
pub open spec fn answered(answer: Seq<u8>) -> Seq<EventView> {
    seq![
        EventView::Done,
        EventView::Done,
        EventView::Done,
        EventView::Bytes(answer.take(3)),
        EventView::Bytes(answer.skip(3)),
    ]
}

/// A command that has ended stays as it is.
proof fn lemma_ended_stays(start: ExchangeView, events: Seq<EventView>, n: int)
    requires
        0 <= n <= events.len(),
        !(run(start, events.take(n)) is Running),
    ensures
        run(start, events) == run(start, events.take(n)),
    decreases events.len(),
{
    if n == events.len() {
        assert(events.take(n) =~= events);
    } else {
        assert(events.drop_last().take(n) =~= events.take(n));
        lemma_ended_stays(start, events.drop_last(), n);
    }
}

/// A command runs through at most five actions.
pub proof fn law_command_ends(cmd: Cmd, events: Seq<EventView>)
    requires
        events.len() >= 5,
    ensures
        !(run(ExchangeView::start(cmd), events) is Running),
        run(ExchangeView::start(cmd), events) == run(ExchangeView::start(cmd), events.take(5)),
{
    reveal_with_fuel(run, 6);
    lemma_ended_stays(ExchangeView::start(cmd), events, 5);
}

/// How a command ends, told from the answers to its five actions: whether the write went
/// through, the first three bytes of the answer, and the rest.
pub open spec fn ending(
    cmd: Cmd,
    write: EventView,
    header: EventView,
    rest: EventView,
) -> ExchangeNextView {
    let func = exchange::func_code(cmd);
    match exchange::request_frame(cmd) {
        Err(error) => ExchangeNextView::Finished(Err(error)),
        Ok(_) => if !(write is Done) {
            ExchangeNextView::Finished(Err(ErrorView::SerialWrite))
        } else {
            match header.bytes(3) {
                None => ExchangeNextView::Finished(Err(ErrorView::ReadHeader)),
                Some(start) => {
                    let head = Header::of(start);
                    if head.func >= 0x80 {
                        ExchangeNextView::Finished(
                            Err(
                                ErrorView::Exception {
                                    func: (head.func - 0x80) as u8,
                                    code: head.third,
                                },
                            ),
                        )
                    } else if head.func != func {
                        ExchangeNextView::Finished(
                            Err(ErrorView::UnexpectedFunction { got: head.func, expected: func }),
                        )
                    } else {
                        match rest.bytes(response::tail_len(head)->0) {
                            None => ExchangeNextView::Finished(Err(ErrorView::ReadBody)),
                            Some(tail) => match exchange::decoded(cmd, start + tail) {
                                Some(outcome) => ExchangeNextView::Finished(outcome),
                                None => ExchangeNextView::Aborted,
                            },
                        }
                    }
                },
            }
        },
    }
}

/// However the five actions of a command are answered, the command ends as [`ending`] tells.
pub proof fn law_command_ending(cmd: Cmd, events: Seq<EventView>)
    requires
        events.len() == 5,
    ensures
        run(ExchangeView::start(cmd), events) == ending(cmd, events[1], events[3], events[4]),
{
    reveal_with_fuel(run, 6);
    if let Some(start) = events[3].bytes(3) {
        assert(Header::of(start).bytes() =~= start);
    }
}

/// A command succeeds only if its request was written and a sound answer came back: from the
/// slave that was addressed, with the function code of the request and the right checksum. What
/// the command gives back is what that answer means.
pub proof fn law_success_is_sound(cmd: Cmd, events: Seq<EventView>, data: DataView)
    requires
        run(ExchangeView::start(cmd), events) == ExchangeNextView::Finished(
            Ok::<DataView, ErrorView>(data),
        ),
    ensures
        events.len() >= 5,
        exchange::request_frame(cmd) is Ok,
        events[1] is Done,
        events[3] is Bytes,
        events[4] is Bytes,
        ({
            let answer = events[3]->Bytes_0 + events[4]->Bytes_0;
            &&& frame::response_fault(
                exchange::addressee(cmd),
                exchange::func_code(cmd),
                answer,
            ) is None
            &&& answer[0] == exchange::addressee(cmd)
            &&& answer[1] == exchange::func_code(cmd)
            &&& exchange::meaning(cmd, answer) == Some(data)
        }),
{
    reveal_with_fuel(run, 6);
    if events.len() >= 5 {
        law_command_ends(cmd, events);
        law_command_ending(cmd, events.take(5));
    }
}

/// Nothing but the request for the command is ever written.
pub proof fn law_only_the_request_is_written(cmd: Cmd, events: Seq<EventView>, sent: Seq<u8>)
    requires
        run(ExchangeView::start(cmd), events) is Running,
        run(ExchangeView::start(cmd), events)->Running_0.action() == ActionView::Write(sent),
    ensures
        exchange::request_frame(cmd) == Ok::<Seq<u8>, ErrorView>(sent),
{
    reveal_with_fuel(run, 6);
    if events.len() >= 5 {
        law_command_ends(cmd, events);
    }
}

/// The answer that carries data bytes to a read request.
pub open spec fn read_answer(slave_id: u8, func: u8, bytes: Seq<u8>) -> Seq<u8> {
    frame::sealed(seq![slave_id, func, bytes.len() as u8] + bytes)
}

/// The answer that acknowledges a write: it repeats the address and one further word.
pub open spec fn write_answer(slave_id: u8, func: u8, address: u16, operand: u16) -> Seq<u8> {
    frame::sealed(frame::word_request(slave_id, func, address, operand))
}

/// Splitting a word into bytes loses nothing.
proof fn lemma_word_of_bytes(word: u16)
    ensures
        frame::word(frame::high(word), frame::low(word)) == word,
{
}

/// A sealed body is intact.
proof fn lemma_sealed(body: Seq<u8>)
    ensures
        frame::sealed(body).len() == body.len() + 2,
        frame::unsealed(frame::sealed(body)) == body,
        frame::word(
            frame::sealed(body)[body.len() as int + 1],
            frame::sealed(body)[body.len() as int],
        ) == frame::crc16(body),
        forall|i: int| 0 <= i < body.len() ==> frame::sealed(body)[i] == body[i],
{
    assert(frame::unsealed(frame::sealed(body)) =~= body);
    lemma_word_of_bytes(frame::crc16(body));
}

/// An answer to a read request is sound, and its data bytes are those it was made of.
proof fn lemma_read_answer(slave_id: u8, func: u8, bytes: Seq<u8>)
    requires
        1 <= func <= 4,
        bytes.len() <= 252,
    ensures
        read_answer(slave_id, func, bytes).len() == bytes.len() + 5,
        frame::response_fault(slave_id, func, read_answer(slave_id, func, bytes)) is None,
        frame::payload(read_answer(slave_id, func, bytes)) == bytes,
        Header::of(read_answer(slave_id, func, bytes).take(3)) == (Header {
            slave_id,
            func,
            third: bytes.len() as u8,
        }),
{
    lemma_sealed(seq![slave_id, func, bytes.len() as u8] + bytes);
    assert(frame::payload(read_answer(slave_id, func, bytes)) =~= bytes);
}

/// Registers laid out as bytes read back as the same registers.
proof fn lemma_registers_of_bytes(values: Seq<u16>, count: u16)
    requires
        values.len() == count,
    ensures
        frame::registers(frame::word_bytes(values), count) == values,
{
    let bytes = frame::word_bytes(values);
    assert forall|i: int| 0 <= i < values.len() implies frame::word(bytes[2 * i], bytes[2 * i + 1])
        == values[i] by {
        assert((2 * i) / 2 == i && (2 * i + 1) / 2 == i);
        lemma_word_of_bytes(values[i]);
    }
    assert(frame::registers(bytes, count) =~= values);
}

/// The values that a device sends for a register read are the values that the command gives
/// back, in the same order. A frame holds up to 126 registers.
#[verifier::rlimit(40)]
pub proof fn law_registers_come_back(cmd: Cmd, values: Seq<u16>)
    requires
        match cmd {
            Cmd::ReadHoldingRegisters { count, .. } => count == values.len(),
            Cmd::ReadInputRegisters { count, .. } => count == values.len(),
            _ => false,
        },
        1 <= values.len() <= 126,
    ensures
        ({
            let answer = read_answer(
                exchange::addressee(cmd),
                exchange::func_code(cmd),
                frame::word_bytes(values),
            );
            run(ExchangeView::start(cmd), answered(answer)) == ExchangeNextView::Finished(
                Ok::<DataView, ErrorView>(
                    match cmd {
                        Cmd::ReadHoldingRegisters { slave_id, address, .. } =>
                            DataView::HoldingRegisters { slave_id, address, values },
                        Cmd::ReadInputRegisters { slave_id, address, .. } =>
                            DataView::InputRegisters { slave_id, address, values },
                        _ => arbitrary(),
                    },
                ),
            )
        }),
{
    let bytes = frame::word_bytes(values);
    let answer = read_answer(exchange::addressee(cmd), exchange::func_code(cmd), bytes);
    lemma_read_answer(exchange::addressee(cmd), exchange::func_code(cmd), bytes);
    lemma_registers_of_bytes(values, values.len() as u16);
    assert(answer.take(3) + answer.skip(3) =~= answer);
    law_command_ending(cmd, answered(answer));
}

/// The bits that a device sends for a coil or discrete input read are the bits that the command
/// gives back, in the same order.
pub proof fn law_bits_come_back(cmd: Cmd, bytes: Seq<u8>, values: Seq<bool>)
    requires
        match cmd {
            Cmd::ReadCoils { count, .. } => count == values.len(),
            Cmd::ReadDiscreteInputs { count, .. } => count == values.len(),
            _ => false,
        },
        values.len() <= 8 * bytes.len(),
        bytes.len() <= 252,
        forall|i: int|
            0 <= i < values.len() ==> frame::bit(bytes[i / 8], (i % 8) as u8)
                == #[trigger] values[i],
    ensures
        ({
            let answer = read_answer(exchange::addressee(cmd), exchange::func_code(cmd), bytes);
            run(ExchangeView::start(cmd), answered(answer)) == ExchangeNextView::Finished(
                Ok::<DataView, ErrorView>(
                    match cmd {
                        Cmd::ReadCoils { slave_id, address, .. } => DataView::Coils {
                            slave_id,
                            address,
                            values,
                        },
                        Cmd::ReadDiscreteInputs { slave_id, address, .. } =>
                            DataView::DiscreteInputs { slave_id, address, values },
                        _ => arbitrary(),
                    },
                ),
            )
        }),
{
    let answer = read_answer(exchange::addressee(cmd), exchange::func_code(cmd), bytes);
    lemma_read_answer(exchange::addressee(cmd), exchange::func_code(cmd), bytes);
    assert(frame::flags(bytes, values.len() as u16) =~= values);
    assert(answer.take(3) + answer.skip(3) =~= answer);
    law_command_ending(cmd, answered(answer));
}

/// A write that the device acknowledges succeeds, and gives back what was written where. A
/// single register or coil is acknowledged by the request itself, sent back.
pub proof fn law_write_is_acknowledged(cmd: Cmd)
    requires
        cmd is WriteSingleRegister || cmd is WriteMultipleRegisters || cmd is WriteSingleCoil,
        exchange::request_frame(cmd) is Ok,
    ensures
        ({
            let func = exchange::func_code(cmd);
            let (answer, data) = match cmd {
                Cmd::WriteSingleRegister { slave_id, address, value, .. } => (
                    exchange::request_frame(cmd)->Ok_0,
                    DataView::WriteRegister { slave_id, address, value },
                ),
                Cmd::WriteSingleCoil { slave_id, address, value, .. } => (
                    exchange::request_frame(cmd)->Ok_0,
                    DataView::WriteCoil { slave_id, address, value },
                ),
                Cmd::WriteMultipleRegisters { slave_id, address, values, .. } => (
                    write_answer(slave_id, func, address, values@.len() as u16),
                    DataView::WriteRegisters { slave_id, address, count: values@.len() },
                ),
                _ => arbitrary(),
            };
            run(ExchangeView::start(cmd), answered(answer)) == ExchangeNextView::Finished(
                Ok::<DataView, ErrorView>(data),
            )
        }),
{
    let (address, operand) = match cmd {
        Cmd::WriteSingleRegister { address, value, .. } => (address, value),
        Cmd::WriteSingleCoil { address, value, .. } => (address, frame::coil_word(value)),
        Cmd::WriteMultipleRegisters { address, values, .. } => (address, values@.len() as u16),
        _ => arbitrary(),
    };
    let body = frame::word_request(
        exchange::addressee(cmd),
        exchange::func_code(cmd),
        address,
        operand,
    );
    let answer = frame::sealed(body);
    lemma_sealed(body);
    assert(answer.take(3) + answer.skip(3) =~= answer);
    law_command_ending(cmd, answered(answer));
}

/// An answer whose checksum does not match is never taken for data, whatever it says.
pub proof fn law_damage_is_noticed(cmd: Cmd, answer: Seq<u8>)
    requires
        exchange::request_frame(cmd) is Ok,
        5 <= answer.len() <= 257,
        answer[1] == exchange::func_code(cmd),
        response::tail_len(Header::of(answer)) == Some((answer.len() - 3) as nat),
        frame::word(answer[answer.len() - 1], answer[answer.len() - 2]) != frame::crc16(
            frame::unsealed(answer),
        ),
    ensures
        run(ExchangeView::start(cmd), answered(answer)) == ExchangeNextView::Finished(
            Err::<DataView, ErrorView>(ErrorView::Parse("FrameCRCError"@)),
        ),
{
    assert(answer.take(3) + answer.skip(3) =~= answer);
    law_command_ending(cmd, answered(answer));
}

/// A Modbus exception fails the command with the function code and the exception code, whether
/// or not anything follows it.
pub proof fn law_exception_is_reported(
    cmd: Cmd,
    cleared: EventView,
    flushed: EventView,
    slave_id: u8,
    func: u8,
    code: u8,
    rest: EventView,
)
    requires
        exchange::request_frame(cmd) is Ok,
        func < 0x80,
    ensures
        run(
            ExchangeView::start(cmd),
            seq![
                cleared,
                EventView::Done,
                flushed,
                EventView::Bytes(seq![slave_id, (func + 0x80) as u8, code]),
                rest,
            ],
        ) == ExchangeNextView::Finished(
            Err::<DataView, ErrorView>(ErrorView::Exception { func, code }),
        ),
{
    law_command_ending(
        cmd,
        seq![
            cleared,
            EventView::Done,
            flushed,
            EventView::Bytes(seq![slave_id, (func + 0x80) as u8, code]),
            rest,
        ],
    );
}

} // verus!
