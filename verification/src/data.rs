//! What commands give back.

use crate::error::{Error, ErrorView};
use vstd::prelude::*;

verus! {

/// How many items of each kind a device is known to serve; 0 where it serves none.
#[derive(Debug, Clone, Copy, PartialEq, Eq, Structural)]
pub struct Capabilities {
    pub coils: u16,
    pub discrete_inputs: u16,
    pub holding_registers: u16,
    pub input_registers: u16,
}

/// A device that a scan found.
#[derive(Debug, Clone, Copy, PartialEq, Eq, Structural)]
pub struct Device {
    pub slave_id: u8,
    pub baud_rate: u32,
    pub caps: Capabilities,
}

/// What a command gave back.
#[derive(Debug, Clone, PartialEq)]
pub enum Data {
    HoldingRegisters { slave_id: u8, address: u16, values: Vec<u16> },
    InputRegisters { slave_id: u8, address: u16, values: Vec<u16> },
    Coils { slave_id: u8, address: u16, values: Vec<bool> },
    DiscreteInputs { slave_id: u8, address: u16, values: Vec<bool> },
    WriteRegister { slave_id: u8, address: u16, value: u16 },
    WriteRegisters { slave_id: u8, address: u16, count: usize },
    WriteCoil { slave_id: u8, address: u16, value: bool },
    ScanResult { discovered: Vec<Device> },
}

/// The mathematical content of [`Data`].
pub enum DataView {
    HoldingRegisters { slave_id: u8, address: u16, values: Seq<u16> },
    InputRegisters { slave_id: u8, address: u16, values: Seq<u16> },
    Coils { slave_id: u8, address: u16, values: Seq<bool> },
    DiscreteInputs { slave_id: u8, address: u16, values: Seq<bool> },
    WriteRegister { slave_id: u8, address: u16, value: u16 },
    WriteRegisters { slave_id: u8, address: u16, count: nat },
    WriteCoil { slave_id: u8, address: u16, value: bool },
    ScanResult { discovered: Seq<Device> },
}

impl View for Data {
    type V = DataView;

    open spec fn view(&self) -> DataView {
        match *self {
            Data::HoldingRegisters { slave_id, address, values } => DataView::HoldingRegisters {
                slave_id,
                address,
                values: values@,
            },
            Data::InputRegisters { slave_id, address, values } => DataView::InputRegisters {
                slave_id,
                address,
                values: values@,
            },
            Data::Coils { slave_id, address, values } => DataView::Coils {
                slave_id,
                address,
                values: values@,
            },
            Data::DiscreteInputs { slave_id, address, values } => DataView::DiscreteInputs {
                slave_id,
                address,
                values: values@,
            },
            Data::WriteRegister { slave_id, address, value } => DataView::WriteRegister {
                slave_id,
                address,
                value,
            },
            Data::WriteRegisters { slave_id, address, count } => DataView::WriteRegisters {
                slave_id,
                address,
                count: count as nat,
            },
            Data::WriteCoil { slave_id, address, value } => DataView::WriteCoil {
                slave_id,
                address,
                value,
            },
            Data::ScanResult { discovered } => DataView::ScanResult { discovered: discovered@ },
        }
    }
}

/// How a command ended.
pub type Outcome = Result<Data, Error>;

/// The mathematical content of an [`Outcome`].
pub type OutcomeView = Result<DataView, ErrorView>;

/// The mathematical content of an outcome.
pub open spec fn outcome_view(outcome: Outcome) -> OutcomeView {
    match outcome {
        Ok(data) => Ok(data@),
        Err(error) => Err(error@),
    }
}

} // verus!
