//! The orders that the serial side gives to the outside world, and what comes back.

use crate::command::Cmd;
use crate::data;
use crate::data::{Outcome, OutcomeView};
use vstd::prelude::*;

verus! {

/// Whom an outcome goes to.
#[derive(Debug, Clone, Copy, PartialEq, Eq, Structural)]
pub enum Requester {
    /// The sender of the command that was last received.
    Current,
    /// The sender of the command that was taken from the queue during a scan.
    Interleaved,
}

/// How many bits make a character on the line.
#[derive(Debug, Clone, Copy, PartialEq, Eq, Structural)]
pub enum DataBits {
    Five,
    Six,
    Seven,
    Eight,
}

/// The bit that guards a character on the line.
#[derive(Debug, Clone, Copy, PartialEq, Eq, Structural)]
pub enum Parity {
    Absent,
    Odd,
    Even,
}

/// How many bits end a character on the line.
#[derive(Debug, Clone, Copy, PartialEq, Eq, Structural)]
pub enum StopBits {
    One,
    Two,
}

/// Which port is opened, and how.
#[derive(Debug, Clone, PartialEq, Eq)]
pub struct PortSettings {
    pub path: String,
    pub baud_rate: u32,
    pub data_bits: DataBits,
    pub parity: Parity,
    pub stop_bits: StopBits,
    /// The read timeout, in milliseconds.
    pub timeout_ms: u64,
}

/// The mathematical content of [`PortSettings`].
pub struct PortSettingsView {
    pub path: Seq<char>,
    pub baud_rate: u32,
    pub data_bits: DataBits,
    pub parity: Parity,
    pub stop_bits: StopBits,
    pub timeout_ms: u64,
}

impl View for PortSettings {
    type V = PortSettingsView;

    open spec fn view(&self) -> PortSettingsView {
        PortSettingsView {
            path: self.path@,
            baud_rate: self.baud_rate,
            data_bits: self.data_bits,
            parity: self.parity,
            stop_bits: self.stop_bits,
            timeout_ms: self.timeout_ms,
        }
    }
}

/// What is to be done next. Each action is answered by one [`Event`].
#[derive(Debug)]
pub enum Action<'a> {
    /// Open this port, with all of these settings.
    Open(&'a PortSettings),
    /// Wait for this many seconds.
    Pause(u64),
    /// Set the baud rate of the port.
    SetBaudRate(u32),
    /// Set the read timeout of the port, in milliseconds.
    SetTimeout(u64),
    /// Drop all bytes that wait in either direction.
    ClearAll,
    /// Drop the bytes that wait to be read.
    ClearInput,
    /// Write all of these bytes.
    Write(&'a Vec<u8>),
    /// Wait until what was written has left.
    Flush,
    /// Read exactly this many bytes.
    Read(usize),
    /// Wait for the next command.
    Receive,
    /// Take the next command, if one waits.
    TryReceive,
    /// Hand over how a command ended.
    Reply(Requester, &'a Outcome),
    /// Nothing more: no command will come.
    Stop,
    /// Nothing more: an answer with no data for a register request cannot be worked on.
    Abort,
}

/// How an action went. An event that does not fit the action counts as its failure.
#[derive(Debug)]
pub enum Event {
    /// The action succeeded.
    Done,
    /// The action failed.
    Failed,
    /// The bytes that were read.
    Bytes(Vec<u8>),
    /// The command that was taken from the queue.
    Command(Cmd),
    /// No command waits, or none will come any more.
    Nothing,
}

/// The mathematical content of an [`Action`].
pub enum ActionView {
    Open(PortSettingsView),
    Pause(u64),
    SetBaudRate(u32),
    SetTimeout(u64),
    ClearAll,
    ClearInput,
    Write(Seq<u8>),
    Flush,
    Read(nat),
    Receive,
    TryReceive,
    Reply(Requester, OutcomeView),
    Stop,
    Abort,
}

/// The mathematical content of an [`Event`].
pub enum EventView {
    Done,
    Failed,
    Bytes(Seq<u8>),
    Command(Cmd),
    Nothing,
}

impl<'a> View for Action<'a> {
    type V = ActionView;

    open spec fn view(&self) -> ActionView {
        match *self {
            Action::Open(settings) => ActionView::Open(settings@),
            Action::Pause(seconds) => ActionView::Pause(seconds),
            Action::SetBaudRate(rate) => ActionView::SetBaudRate(rate),
            Action::SetTimeout(millis) => ActionView::SetTimeout(millis),
            Action::ClearAll => ActionView::ClearAll,
            Action::ClearInput => ActionView::ClearInput,
            Action::Write(bytes) => ActionView::Write(bytes@),
            Action::Flush => ActionView::Flush,
            Action::Read(len) => ActionView::Read(len as nat),
            Action::Receive => ActionView::Receive,
            Action::TryReceive => ActionView::TryReceive,
            Action::Reply(to, outcome) => ActionView::Reply(to, data::outcome_view(*outcome)),
            Action::Stop => ActionView::Stop,
            Action::Abort => ActionView::Abort,
        }
    }
}

impl View for Event {
    type V = EventView;

    open spec fn view(&self) -> EventView {
        match *self {
            Event::Done => EventView::Done,
            Event::Failed => EventView::Failed,
            Event::Bytes(bytes) => EventView::Bytes(bytes@),
            Event::Command(cmd) => EventView::Command(cmd),
            Event::Nothing => EventView::Nothing,
        }
    }
}

impl EventView {
    /// The bytes that came back for a read of `len` bytes.
    pub open spec fn bytes(self, len: nat) -> Option<Seq<u8>> {
        match self {
            EventView::Bytes(bytes) => if bytes.len() == len {
                Some(bytes)
            } else {
                None
            },
            _ => None,
        }
    }
}

impl Event {
    /// Whether the action succeeded.
    pub fn is_done(&self) -> (done: bool)
        ensures
            done == (self@ is Done),
    {
        match self {
            Event::Done => true,
            _ => false,
        }
    }

    /// The bytes that came back for a read of `len` bytes.
    pub fn bytes(self, len: usize) -> (bytes: Option<Vec<u8>>)
        ensures
            match bytes {
                Some(bytes) => self@.bytes(len as nat) == Some(bytes@),
                None => self@.bytes(len as nat) is None,
            },
    {
        match self {
            Event::Bytes(bytes) => if bytes.len() == len {
                Some(bytes)
            } else {
                None
            },
            _ => None,
        }
    }
}

} // verus!
