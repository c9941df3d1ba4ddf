//! Reading one answer off the line.
//!
//! ```text
//! answer to a read:  [slave][func][byte_count][data...][crc_lo][crc_hi]
//! answer to a write: [slave][func][addr_hi][addr_lo][val_hi][val_lo][crc_lo][crc_hi]
//! exception:         [slave][func|0x80][code][crc_lo][crc_hi]
//! ```

use crate::error::{Error, ErrorView};
use crate::frame::{
    READ_COILS, READ_DISCRETE_INPUTS, READ_HOLDING_REGISTERS, READ_INPUT_REGISTERS,
    WRITE_MULTIPLE_COILS, WRITE_MULTIPLE_REGISTERS, WRITE_SINGLE_COIL, WRITE_SINGLE_REGISTER,
};
use crate::port::{Event, EventView};
use vstd::prelude::*;

verus! {

/// The first three bytes of an answer.
#[derive(Debug, Clone, Copy, PartialEq, Eq, Structural)]
pub struct Header {
    pub slave_id: u8,
    pub func: u8,
    /// The byte count, the exception code, or the high byte of an address.
    pub third: u8,
}

/// How far the reading of an answer has come.
#[derive(Debug, Clone, Copy, PartialEq, Eq, Structural)]
pub enum RtuRead {
    /// The header is to be read.
    Header { expected_func: u8 },
    /// The checksum of an exception is to be read.
    Exception { func: u8, code: u8 },
    /// The rest of the answer is to be read.
    Body { header: Header, len: usize },
}

/// What the reading of an answer has come to.
#[derive(Debug)]
pub enum RtuNext {
    Running(RtuRead),
    Finished(Result<Vec<u8>, Error>),
}

/// The mathematical content of an [`RtuNext`].
pub enum RtuNextView {
    Running(RtuRead),
    Finished(Result<Seq<u8>, ErrorView>),
}

impl View for RtuNext {
    type V = RtuNextView;

    open spec fn view(&self) -> RtuNextView {
        match *self {
            RtuNext::Running(read) => RtuNextView::Running(read),
            RtuNext::Finished(Ok(frame)) => RtuNextView::Finished(Ok(frame@)),
            RtuNext::Finished(Err(error)) => RtuNextView::Finished(Err(error@)),
        }
    }
}

/// How many bytes follow the header of an answer that is no exception; `None` for a function
/// code whose answers are not known.
pub open spec fn tail_len(header: Header) -> Option<nat> {
    match header.func {
        READ_COILS | READ_DISCRETE_INPUTS | READ_HOLDING_REGISTERS | READ_INPUT_REGISTERS => Some(
            header.third as nat + 2,
        ),
        WRITE_SINGLE_COIL
        | WRITE_SINGLE_REGISTER
        | WRITE_MULTIPLE_COILS
        | WRITE_MULTIPLE_REGISTERS => Some(5),
        _ => None,
    }
}

impl Header {
    /// The header that these three bytes are.
    pub open spec fn of(bytes: Seq<u8>) -> Header {
        Header { slave_id: bytes[0], func: bytes[1], third: bytes[2] }
    }

    /// The bytes of the header.
    pub open spec fn bytes(self) -> Seq<u8> {
        seq![self.slave_id, self.func, self.third]
    }

    /// Whether the header announces an exception: the function code has its top bit set.
    pub open spec fn is_exception(self) -> bool {
        self.func >= 0x80
    }

    /// What follows from a header where answers with `expected_func` are wanted.
    pub open spec fn verdict(self, expected_func: u8) -> RtuNextView {
        if self.is_exception() {
            RtuNextView::Running(
                RtuRead::Exception { func: (self.func - 0x80) as u8, code: self.third },
            )
        } else if self.func != expected_func {
            RtuNextView::Finished(
                Err(ErrorView::UnexpectedFunction { got: self.func, expected: expected_func }),
            )
        } else {
            match tail_len(self) {
                Some(len) => RtuNextView::Running(
                    RtuRead::Body { header: self, len: len as usize },
                ),
                None => RtuNextView::Finished(Err(ErrorView::UnknownFunction { func: self.func })),
            }
        }
    }
}

impl RtuRead {
    /// How many bytes are to be read next.
    pub open spec fn len(self) -> nat {
        match self {
            RtuRead::Header { .. } => 3,
            RtuRead::Exception { .. } => 2,
            RtuRead::Body { len, .. } => len as nat,
        }
    }

    /// What the reading comes to when the pending read is answered by `event`.
    pub open spec fn next(self, event: EventView) -> RtuNextView {
        let bytes = event.bytes(self.len());
        match self {
            RtuRead::Header { expected_func } => match bytes {
                Some(bytes) => Header::of(bytes).verdict(expected_func),
                None => RtuNextView::Finished(Err(ErrorView::ReadHeader)),
            },
            RtuRead::Exception { func, code } => RtuNextView::Finished(
                Err(ErrorView::Exception { func, code }),
            ),
            RtuRead::Body { header, .. } => match bytes {
                Some(bytes) => RtuNextView::Finished(Ok(header.bytes() + bytes)),
                None => RtuNextView::Finished(Err(ErrorView::ReadBody)),
            },
        }
    }

    /// How many bytes are to be read next.
    pub fn wanted(&self) -> (len: usize)
        ensures
            len == self.len(),
    {
        match self {
            RtuRead::Header { .. } => 3,
            RtuRead::Exception { .. } => 2,
            RtuRead::Body { len, .. } => *len,
        }
    }

    /// Takes the answer to the pending read.
    pub fn step(self, event: Event) -> (next: RtuNext)
        ensures
            next@ == self.next(event@),
    {
        let bytes: Option<Vec<u8>> = event.bytes(self.wanted());
        match self {
            RtuRead::Header { expected_func } => match bytes {
                Some(bytes) => judge_header(
                    Header { slave_id: bytes[0], func: bytes[1], third: bytes[2] },
                    expected_func,
                ),
                None => RtuNext::Finished(Err(Error::ReadHeader)),
            },
            RtuRead::Exception { func, code } => RtuNext::Finished(
                Err(Error::Exception { func, code }),
            ),
            RtuRead::Body { header, .. } => match bytes {
                Some(mut tail) => {
                    let ghost body = tail@;
                    let mut frame: Vec<u8> = vec![header.slave_id, header.func, header.third];
                    frame.append(&mut tail);
                    assert(frame@ =~= header.bytes() + body);
                    RtuNext::Finished(Ok(frame))
                },
                None => RtuNext::Finished(Err(Error::ReadBody)),
            },
        }
    }
}

/// Starts to read one answer with the given function code.
pub fn read_rtu_response(expected_func: u8) -> (read: RtuRead)
    ensures
        read == (RtuRead::Header { expected_func }),
{
    RtuRead::Header { expected_func }
}

/// What follows from a header where answers with `expected_func` are wanted.
fn judge_header(header: Header, expected_func: u8) -> (next: RtuNext)
    ensures
        next@ == header.verdict(expected_func),
{
    let func: u8 = header.func;
    assert((func & 0x80 != 0) == (func >= 0x80)) by (bit_vector);
    assert(func >= 0x80 ==> func & 0x7F == func - 0x80) by (bit_vector);
    if func & 0x80 != 0 {
        return RtuNext::Running(RtuRead::Exception { func: func & 0x7F, code: header.third });
    }
    if func != expected_func {
        return RtuNext::Finished(
            Err(Error::UnexpectedFunction { got: func, expected: expected_func }),
        );
    }
    match func {
        READ_COILS | READ_DISCRETE_INPUTS | READ_HOLDING_REGISTERS | READ_INPUT_REGISTERS =>
            RtuNext::Running(RtuRead::Body { header, len: header.third as usize + 2 }),
        WRITE_SINGLE_COIL
        | WRITE_SINGLE_REGISTER
        | WRITE_MULTIPLE_COILS
        | WRITE_MULTIPLE_REGISTERS => RtuNext::Running(RtuRead::Body { header, len: 5 }),
        _ => RtuNext::Finished(Err(Error::UnknownFunction { func })),
    }
}

} // verus!
