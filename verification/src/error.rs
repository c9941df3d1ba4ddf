//! Why a command failed.

use crate::text::{append_decimal, append_hex};
use vstd::prelude::*;

verus! {

/// Why the serial side could not carry out a command.
#[derive(Debug, Clone, PartialEq, Eq)]
pub enum Error {
    /// The request does not fit into a frame; the text names the fault.
    BuildFrame(String),
    /// The request could not be written.
    SerialWrite,
    /// The first bytes of the answer did not arrive.
    ReadHeader,
    /// The device answered with a Modbus exception.
    Exception { func: u8, code: u8 },
    /// The answer belongs to another kind of request.
    UnexpectedFunction { got: u8, expected: u8 },
    /// The length of such an answer is not known.
    UnknownFunction { func: u8 },
    /// The rest of the answer did not arrive.
    ReadBody,
    /// The answer is damaged; the text names the fault.
    Parse(String),
    /// A scan was taken for a command to a single device.
    ScanDispatched,
    /// A scan was asked for while one is under way.
    ScanInProgress,
    /// The serial side went away before it answered.
    WorkerDropped,
}

/// The mathematical content of an [`Error`].
pub enum ErrorView {
    BuildFrame(Seq<char>),
    SerialWrite,
    ReadHeader,
    Exception { func: u8, code: u8 },
    UnexpectedFunction { got: u8, expected: u8 },
    UnknownFunction { func: u8 },
    ReadBody,
    Parse(Seq<char>),
    ScanDispatched,
    ScanInProgress,
    WorkerDropped,
}

impl View for Error {
    type V = ErrorView;

    open spec fn view(&self) -> ErrorView {
        match *self {
            Error::BuildFrame(fault) => ErrorView::BuildFrame(fault@),
            Error::SerialWrite => ErrorView::SerialWrite,
            Error::ReadHeader => ErrorView::ReadHeader,
            Error::Exception { func, code } => ErrorView::Exception { func, code },
            Error::UnexpectedFunction { got, expected } => ErrorView::UnexpectedFunction {
                got,
                expected,
            },
            Error::UnknownFunction { func } => ErrorView::UnknownFunction { func },
            Error::ReadBody => ErrorView::ReadBody,
            Error::Parse(fault) => ErrorView::Parse(fault@),
            Error::ScanDispatched => ErrorView::ScanDispatched,
            Error::ScanInProgress => ErrorView::ScanInProgress,
            Error::WorkerDropped => ErrorView::WorkerDropped,
        }
    }
}

impl ErrorView {
    /// The error as the response spells it.
    pub open spec fn message(self) -> Seq<char> {
        match self {
            ErrorView::BuildFrame(fault) => "build frame: "@ + fault,
            ErrorView::SerialWrite => "serial write"@,
            ErrorView::ReadHeader => "reading RTU header"@,
            ErrorView::Exception { func, code } => "Modbus exception (func="@
                + crate::text::hex_byte(func) + ", code="@ + crate::text::decimal(code as nat)
                + ")"@,
            ErrorView::UnexpectedFunction { got, expected } => "Unexpected function code: got "@
                + crate::text::hex_byte(got) + ", expected "@ + crate::text::hex_byte(expected),
            ErrorView::UnknownFunction { func } => "Unknown function code "@
                + crate::text::hex_byte(func),
            ErrorView::ReadBody => "reading RTU body"@,
            ErrorView::Parse(fault) => "parse: "@ + fault,
            ErrorView::ScanDispatched => "internal: ScanBus must not be dispatched to run_cmd"@,
            ErrorView::ScanInProgress => "scan already in progress, try again later"@,
            ErrorView::WorkerDropped => "modbus thread dropped"@,
        }
    }
}

impl Error {
    /// The error as the response spells it.
    pub fn message(&self) -> (text: String)
        ensures
            text@ == self@.message(),
    {
        match self {
            Error::BuildFrame(fault) => "build frame: ".to_string().concat(fault.as_str()),
            Error::SerialWrite => "serial write".to_string(),
            Error::ReadHeader => "reading RTU header".to_string(),
            Error::Exception { func, code } => {
                let mut text = "Modbus exception (func=".to_string();
                append_hex(&mut text, *func);
                text.append(", code=");
                append_decimal(&mut text, *code);
                text.append(")");
                text
            },
            Error::UnexpectedFunction { got, expected } => {
                let mut text = "Unexpected function code: got ".to_string();
                append_hex(&mut text, *got);
                text.append(", expected ");
                append_hex(&mut text, *expected);
                text
            },
            Error::UnknownFunction { func } => {
                let mut text = "Unknown function code ".to_string();
                append_hex(&mut text, *func);
                text
            },
            Error::ReadBody => "reading RTU body".to_string(),
            Error::Parse(fault) => "parse: ".to_string().concat(fault.as_str()),
            Error::ScanDispatched => "internal: ScanBus must not be dispatched to run_cmd".to_string(),
            Error::ScanInProgress => "scan already in progress, try again later".to_string(),
            Error::WorkerDropped => "modbus thread dropped".to_string(),
        }
    }
}

} // verus!
