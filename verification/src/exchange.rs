//! One command, carried out: request out, answer in.

use crate::command::Cmd;
use crate::data;
use crate::data::{Data, DataView, Outcome, OutcomeView};
use crate::error::{Error, ErrorView};
use crate::frame;
use crate::frame::{
    READ_COILS, READ_DISCRETE_INPUTS, READ_HOLDING_REGISTERS, READ_INPUT_REGISTERS,
    WRITE_MULTIPLE_REGISTERS, WRITE_SINGLE_COIL, WRITE_SINGLE_REGISTER,
};
use crate::port::{Action, ActionView, Event, EventView};
use crate::response::{read_rtu_response, RtuNext, RtuNextView, RtuRead};
use vstd::prelude::*;

verus! {

/// The function code of the request for a command.
pub open spec fn func_code(cmd: Cmd) -> u8 {
    match cmd {
        Cmd::ReadHoldingRegisters { .. } => READ_HOLDING_REGISTERS,
        Cmd::ReadInputRegisters { .. } => READ_INPUT_REGISTERS,
        Cmd::ReadCoils { .. } => READ_COILS,
        Cmd::ReadDiscreteInputs { .. } => READ_DISCRETE_INPUTS,
        Cmd::WriteSingleRegister { .. } => WRITE_SINGLE_REGISTER,
        Cmd::WriteMultipleRegisters { .. } => WRITE_MULTIPLE_REGISTERS,
        Cmd::WriteSingleCoil { .. } => WRITE_SINGLE_COIL,
        Cmd::ScanBus { .. } => 0,
    }
}

/// The request for a command, or why there is none.
pub open spec fn request_frame(cmd: Cmd) -> Result<Seq<u8>, ErrorView> {
    let func = func_code(cmd);
    match cmd {
        Cmd::ReadHoldingRegisters { slave_id, address, count, .. } => Ok(
            frame::sealed(frame::word_request(slave_id, func, address, count)),
        ),
        Cmd::ReadInputRegisters { slave_id, address, count, .. } => Ok(
            frame::sealed(frame::word_request(slave_id, func, address, count)),
        ),
        Cmd::ReadCoils { slave_id, address, count, .. } => Ok(
            frame::sealed(frame::word_request(slave_id, func, address, count)),
        ),
        Cmd::ReadDiscreteInputs { slave_id, address, count, .. } => Ok(
            frame::sealed(frame::word_request(slave_id, func, address, count)),
        ),
        Cmd::WriteSingleRegister { slave_id, address, value, .. } => Ok(
            frame::sealed(frame::word_request(slave_id, func, address, value)),
        ),
        Cmd::WriteMultipleRegisters { slave_id, address, values, .. } => if values@.len()
            <= frame::max_bulk_registers() {
            Ok(frame::sealed(frame::bulk_request(slave_id, address, values@)))
        } else {
            Err(ErrorView::BuildFrame("OOB"@))
        },
        Cmd::WriteSingleCoil { slave_id, address, value, .. } => Ok(
            frame::sealed(frame::word_request(slave_id, func, address, frame::coil_word(value))),
        ),
        Cmd::ScanBus { .. } => Err(ErrorView::ScanDispatched),
    }
}

/// What a sound answer means for the command it answers; `None` where it is an answer to a
/// register request that carries no data byte at all, which has no meaning.
pub open spec fn meaning(cmd: Cmd, frame: Seq<u8>) -> Option<DataView> {
    match cmd {
        Cmd::ReadHoldingRegisters { slave_id, address, count, .. } => if frame.len() == 5 {
            None
        } else {
            let values = frame::registers(frame::payload(frame), count);
            Some(DataView::HoldingRegisters { slave_id, address, values })
        },
        Cmd::ReadInputRegisters { slave_id, address, count, .. } => if frame.len() == 5 {
            None
        } else {
            let values = frame::registers(frame::payload(frame), count);
            Some(DataView::InputRegisters { slave_id, address, values })
        },
        Cmd::ReadCoils { slave_id, address, count, .. } => {
            let values = frame::flags(frame::payload(frame), count);
            Some(DataView::Coils { slave_id, address, values })
        },
        Cmd::ReadDiscreteInputs { slave_id, address, count, .. } => {
            let values = frame::flags(frame::payload(frame), count);
            Some(DataView::DiscreteInputs { slave_id, address, values })
        },
        Cmd::WriteSingleRegister { slave_id, address, value, .. } => Some(
            DataView::WriteRegister { slave_id, address, value },
        ),
        Cmd::WriteMultipleRegisters { slave_id, address, values, .. } => Some(
            DataView::WriteRegisters { slave_id, address, count: values@.len() },
        ),
        Cmd::WriteSingleCoil { slave_id, address, value, .. } => Some(
            DataView::WriteCoil { slave_id, address, value },
        ),
        Cmd::ScanBus { .. } => None,
    }
}

/// The slave that a command is for.
pub open spec fn addressee(cmd: Cmd) -> u8 {
    match cmd {
        Cmd::ReadHoldingRegisters { slave_id, .. } => slave_id,
        Cmd::ReadInputRegisters { slave_id, .. } => slave_id,
        Cmd::ReadCoils { slave_id, .. } => slave_id,
        Cmd::ReadDiscreteInputs { slave_id, .. } => slave_id,
        Cmd::WriteSingleRegister { slave_id, .. } => slave_id,
        Cmd::WriteMultipleRegisters { slave_id, .. } => slave_id,
        Cmd::WriteSingleCoil { slave_id, .. } => slave_id,
        Cmd::ScanBus { .. } => 0,
    }
}

/// How a command ends when `frame` was read as its answer; `None` where the answer is sound
/// and has no meaning.
pub open spec fn decoded(cmd: Cmd, frame: Seq<u8>) -> Option<OutcomeView> {
    if cmd is ScanBus {
        Some(Err(ErrorView::ScanDispatched))
    } else {
        match frame::response_fault(addressee(cmd), func_code(cmd), frame) {
            Some(fault) => Some(Err(ErrorView::Parse(fault))),
            None => match meaning(cmd, frame) {
                Some(data) => Some(Ok(data)),
                None => None,
            },
        }
    }
}

/// Turns what a frame generator gave back into the library's terms.
fn built(frame: Result<Vec<u8>, String>) -> (r: Result<Vec<u8>, Error>)
    ensures
        match frame {
            Ok(frame) => r == Ok::<Vec<u8>, Error>(frame),
            Err(fault) => r == Err::<Vec<u8>, Error>(Error::BuildFrame(fault)),
        },
{
    match frame {
        Ok(frame) => Ok(frame),
        Err(fault) => Err(Error::BuildFrame(fault)),
    }
}

/// Builds the request for a command.
pub fn build_request(cmd: &Cmd) -> (r: Result<Vec<u8>, Error>)
    ensures
        match r {
            Ok(frame) => request_frame(*cmd) == Ok::<Seq<u8>, ErrorView>(frame@),
            Err(error) => request_frame(*cmd) == Err::<Seq<u8>, ErrorView>(error@),
        },
{
    match cmd {
        Cmd::ReadHoldingRegisters { slave_id, address, count, .. } => built(
            frame::generate_get_holdings(*slave_id, *address, *count),
        ),
        Cmd::ReadInputRegisters { slave_id, address, count, .. } => built(
            frame::generate_get_inputs(*slave_id, *address, *count),
        ),
        Cmd::ReadCoils { slave_id, address, count, .. } => built(
            frame::generate_get_coils(*slave_id, *address, *count),
        ),
        Cmd::ReadDiscreteInputs { slave_id, address, count, .. } => built(
            frame::generate_get_discretes(*slave_id, *address, *count),
        ),
        Cmd::WriteSingleRegister { slave_id, address, value, .. } => built(
            frame::generate_set_holding(*slave_id, *address, *value),
        ),
        Cmd::WriteMultipleRegisters { slave_id, address, values, .. } => built(
            frame::generate_set_holdings_bulk(*slave_id, *address, values),
        ),
        Cmd::WriteSingleCoil { slave_id, address, value, .. } => built(
            frame::generate_set_coil(*slave_id, *address, *value),
        ),
        Cmd::ScanBus { .. } => Err(Error::ScanDispatched),
    }
}

/// Reads registers out of an answer; `None` where it is sound and carries no data byte.
fn read_registers(slave_id: u8, func: u8, count: u16, frame: &Vec<u8>) -> (r: Option<
    Result<Vec<u16>, Error>,
>)
    requires
        1 <= func <= 4,
    ensures
        match r {
            Some(Ok(values)) => {
                &&& frame::response_fault(slave_id, func, frame@) is None
                &&& frame@.len() != 5
                &&& values@ == frame::registers(frame::payload(frame@), count)
            },
            Some(Err(error)) => {
                &&& frame::response_fault(slave_id, func, frame@) is Some
                &&& error@ == ErrorView::Parse(frame::response_fault(slave_id, func, frame@)->0)
            },
            None => frame::response_fault(slave_id, func, frame@) is None && frame@.len() == 5,
        },
{
    if frame.len() == 5 {
        return match frame::parse_ok(slave_id, func, frame) {
            Ok(_) => None,
            Err(fault) => Some(Err(Error::Parse(fault))),
        };
    }
    match frame::parse_u16(slave_id, func, count, frame) {
        Ok(values) => Some(Ok(values)),
        Err(fault) => Some(Err(Error::Parse(fault))),
    }
}

/// Reads bits out of an answer, no more than were asked for.
fn read_bits(slave_id: u8, func: u8, count: u16, frame: &Vec<u8>) -> (r: Result<Vec<bool>, Error>)
    requires
        1 <= func <= 4,
    ensures
        match r {
            Ok(values) => {
                &&& frame::response_fault(slave_id, func, frame@) is None
                &&& values@ == frame::flags(frame::payload(frame@), count)
            },
            Err(error) => {
                &&& frame::response_fault(slave_id, func, frame@) is Some
                &&& error@ == ErrorView::Parse(frame::response_fault(slave_id, func, frame@)->0)
            },
        },
{
    match frame::parse_bool(slave_id, func, count, frame) {
        Ok(mut values) => {
            values.truncate(count as usize);
            assert(values@ =~= frame::flags(frame::payload(frame@), count));
            Ok(values)
        },
        Err(fault) => Err(Error::Parse(fault)),
    }
}

/// Checks the answer to a write.
fn check_write(slave_id: u8, func: u8, frame: &Vec<u8>, data: Data) -> (r: Outcome)
    requires
        func == WRITE_SINGLE_COIL || func == WRITE_SINGLE_REGISTER || func
            == WRITE_MULTIPLE_REGISTERS,
    ensures
        match r {
            Ok(given) => frame::response_fault(slave_id, func, frame@) is None && given == data,
            Err(error) => {
                &&& frame::response_fault(slave_id, func, frame@) is Some
                &&& error@ == ErrorView::Parse(frame::response_fault(slave_id, func, frame@)->0)
            },
        },
{
    match frame::parse_ok(slave_id, func, frame) {
        Ok(_) => Ok(data),
        Err(fault) => Err(Error::Parse(fault)),
    }
}

/// Works out how a command ends when `frame` was read as its answer; `None` where the answer is
/// sound and has no meaning.
pub fn decode_answer(cmd: &Cmd, frame: &Vec<u8>) -> (r: Option<Outcome>)
    ensures
        match r {
            Some(outcome) => decoded(*cmd, frame@) == Some(data::outcome_view(outcome)),
            None => decoded(*cmd, frame@) is None,
        },
{
    match cmd {
        Cmd::ReadHoldingRegisters { slave_id, address, count, .. } => {
            match read_registers(*slave_id, READ_HOLDING_REGISTERS, *count, frame) {
                Some(Ok(values)) => Some(
                    Ok(Data::HoldingRegisters { slave_id: *slave_id, address: *address, values }),
                ),
                Some(Err(error)) => Some(Err(error)),
                None => None,
            }
        },
        Cmd::ReadInputRegisters { slave_id, address, count, .. } => {
            match read_registers(*slave_id, READ_INPUT_REGISTERS, *count, frame) {
                Some(Ok(values)) => Some(
                    Ok(Data::InputRegisters { slave_id: *slave_id, address: *address, values }),
                ),
                Some(Err(error)) => Some(Err(error)),
                None => None,
            }
        },
        Cmd::ReadCoils { slave_id, address, count, .. } => {
            match read_bits(*slave_id, READ_COILS, *count, frame) {
                Ok(values) => Some(
                    Ok(Data::Coils { slave_id: *slave_id, address: *address, values }),
                ),
                Err(error) => Some(Err(error)),
            }
        },
        Cmd::ReadDiscreteInputs { slave_id, address, count, .. } => {
            match read_bits(*slave_id, READ_DISCRETE_INPUTS, *count, frame) {
                Ok(values) => Some(
                    Ok(Data::DiscreteInputs { slave_id: *slave_id, address: *address, values }),
                ),
                Err(error) => Some(Err(error)),
            }
        },
        Cmd::WriteSingleRegister { slave_id, address, value, .. } => Some(
            check_write(
                *slave_id,
                WRITE_SINGLE_REGISTER,
                frame,
                Data::WriteRegister { slave_id: *slave_id, address: *address, value: *value },
            ),
        ),
        Cmd::WriteMultipleRegisters { slave_id, address, values, .. } => Some(
            check_write(
                *slave_id,
                WRITE_MULTIPLE_REGISTERS,
                frame,
                Data::WriteRegisters {
                    slave_id: *slave_id,
                    address: *address,
                    count: values.len(),
                },
            ),
        ),
        Cmd::WriteSingleCoil { slave_id, address, value, .. } => Some(
            check_write(
                *slave_id,
                WRITE_SINGLE_COIL,
                frame,
                Data::WriteCoil { slave_id: *slave_id, address: *address, value: *value },
            ),
        ),
        Cmd::ScanBus { .. } => Some(Err(Error::ScanDispatched)),
    }
}

/// How far a command has come.
#[derive(Debug)]
pub enum ExchangePhase {
    /// Bytes left over from an earlier exchange are to be dropped.
    Clear,
    /// The request is to be written.
    Write(Vec<u8>),
    /// The request is to leave.
    Flush,
    /// The answer is to be read.
    Read(RtuRead),
}

/// A command under way.
#[derive(Debug)]
pub struct Exchange {
    pub cmd: Cmd,
    pub phase: ExchangePhase,
}

/// What a command has come to.
#[derive(Debug)]
pub enum ExchangeNext {
    Running(Exchange),
    Finished(Outcome),
    /// The answer has no meaning, and the work cannot go on.
    Aborted,
}

/// The mathematical content of an [`ExchangePhase`].
pub enum ExchangePhaseView {
    Clear,
    Write(Seq<u8>),
    Flush,
    Read(RtuRead),
}

/// The mathematical content of an [`Exchange`].
pub struct ExchangeView {
    pub cmd: Cmd,
    pub phase: ExchangePhaseView,
}

/// The mathematical content of an [`ExchangeNext`].
pub enum ExchangeNextView {
    Running(ExchangeView),
    Finished(OutcomeView),
    Aborted,
}

impl View for Exchange {
    type V = ExchangeView;

    open spec fn view(&self) -> ExchangeView {
        ExchangeView {
            cmd: self.cmd,
            phase: match self.phase {
                ExchangePhase::Clear => ExchangePhaseView::Clear,
                ExchangePhase::Write(frame) => ExchangePhaseView::Write(frame@),
                ExchangePhase::Flush => ExchangePhaseView::Flush,
                ExchangePhase::Read(read) => ExchangePhaseView::Read(read),
            },
        }
    }
}

impl View for ExchangeNext {
    type V = ExchangeNextView;

    open spec fn view(&self) -> ExchangeNextView {
        match *self {
            ExchangeNext::Running(exchange) => ExchangeNextView::Running(exchange@),
            ExchangeNext::Finished(outcome) => ExchangeNextView::Finished(
                data::outcome_view(outcome),
            ),
            ExchangeNext::Aborted => ExchangeNextView::Aborted,
        }
    }
}

impl ExchangeView {
    /// A command about to be carried out.
    pub open spec fn start(cmd: Cmd) -> ExchangeView {
        ExchangeView { cmd, phase: ExchangePhaseView::Clear }
    }

    /// The same command in another phase.
    pub open spec fn at(self, phase: ExchangePhaseView) -> ExchangeNextView {
        ExchangeNextView::Running(ExchangeView { cmd: self.cmd, phase })
    }

    /// What is to be done next.
    pub open spec fn action(self) -> ActionView {
        match self.phase {
            ExchangePhaseView::Clear => ActionView::ClearAll,
            ExchangePhaseView::Write(frame) => ActionView::Write(frame),
            ExchangePhaseView::Flush => ActionView::Flush,
            ExchangePhaseView::Read(read) => ActionView::Read(read.len()),
        }
    }

    /// What the command comes to when the pending action is answered by `event`.
    pub open spec fn next(self, event: EventView) -> ExchangeNextView {
        match self.phase {
            ExchangePhaseView::Clear => match request_frame(self.cmd) {
                Ok(frame) => self.at(ExchangePhaseView::Write(frame)),
                Err(error) => ExchangeNextView::Finished(Err(error)),
            },
            ExchangePhaseView::Write(_) => if event is Done {
                self.at(ExchangePhaseView::Flush)
            } else {
                ExchangeNextView::Finished(Err(ErrorView::SerialWrite))
            },
            ExchangePhaseView::Flush => self.at(
                ExchangePhaseView::Read(RtuRead::Header { expected_func: func_code(self.cmd) }),
            ),
            ExchangePhaseView::Read(read) => match read.next(event) {
                RtuNextView::Running(read) => self.at(ExchangePhaseView::Read(read)),
                RtuNextView::Finished(Err(error)) => ExchangeNextView::Finished(Err(error)),
                RtuNextView::Finished(Ok(frame)) => match decoded(self.cmd, frame) {
                    Some(outcome) => ExchangeNextView::Finished(outcome),
                    None => ExchangeNextView::Aborted,
                },
            },
        }
    }
}

/// Starts to carry out a command.
pub fn run_cmd(cmd: Cmd) -> (exchange: Exchange)
    ensures
        exchange@ == ExchangeView::start(cmd),
{
    Exchange { cmd, phase: ExchangePhase::Clear }
}

/// The function code of the request for a command.
fn func_of(cmd: &Cmd) -> (func: u8)
    ensures
        func == func_code(*cmd),
{
    match cmd {
        Cmd::ReadHoldingRegisters { .. } => READ_HOLDING_REGISTERS,
        Cmd::ReadInputRegisters { .. } => READ_INPUT_REGISTERS,
        Cmd::ReadCoils { .. } => READ_COILS,
        Cmd::ReadDiscreteInputs { .. } => READ_DISCRETE_INPUTS,
        Cmd::WriteSingleRegister { .. } => WRITE_SINGLE_REGISTER,
        Cmd::WriteMultipleRegisters { .. } => WRITE_MULTIPLE_REGISTERS,
        Cmd::WriteSingleCoil { .. } => WRITE_SINGLE_COIL,
        Cmd::ScanBus { .. } => 0,
    }
}

impl Exchange {
    /// What is to be done next.
    pub fn action(&self) -> (action: Action<'_>)
        ensures
            action@ == self@.action(),
    {
        match &self.phase {
            ExchangePhase::Clear => Action::ClearAll,
            ExchangePhase::Write(frame) => Action::Write(frame),
            ExchangePhase::Flush => Action::Flush,
            ExchangePhase::Read(read) => Action::Read(read.wanted()),
        }
    }

    /// Takes the answer to the pending action.
    pub fn step(self, event: Event) -> (next: ExchangeNext)
        ensures
            next@ == self@.next(event@),
    {
        let Exchange { cmd, phase } = self;
        match phase {
            ExchangePhase::Clear => match build_request(&cmd) {
                Ok(frame) => ExchangeNext::Running(
                    Exchange { cmd, phase: ExchangePhase::Write(frame) },
                ),
                Err(error) => ExchangeNext::Finished(Err(error)),
            },
            ExchangePhase::Write(_) => if event.is_done() {
                ExchangeNext::Running(Exchange { cmd, phase: ExchangePhase::Flush })
            } else {
                ExchangeNext::Finished(Err(Error::SerialWrite))
            },
            ExchangePhase::Flush => {
                let read: RtuRead = read_rtu_response(func_of(&cmd));
                ExchangeNext::Running(Exchange { cmd, phase: ExchangePhase::Read(read) })
            },
            ExchangePhase::Read(read) => match read.step(event) {
                RtuNext::Running(read) => ExchangeNext::Running(
                    Exchange { cmd, phase: ExchangePhase::Read(read) },
                ),
                RtuNext::Finished(Err(error)) => ExchangeNext::Finished(Err(error)),
                RtuNext::Finished(Ok(frame)) => match decode_answer(&cmd, &frame) {
                    Some(outcome) => ExchangeNext::Finished(outcome),
                    None => ExchangeNext::Aborted,
                },
            },
        }
    }
}

} // verus!
