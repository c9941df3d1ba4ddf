//! The commands that arrive over MQTT.

use vstd::prelude::*;

verus! {

/// A command for the serial side of the bridge.
///
/// `request_id` is an opaque tag chosen by the sender, which comes back in the response.
#[derive(Debug, Clone, PartialEq)]
pub enum Cmd {
    ReadHoldingRegisters { slave_id: u8, address: u16, count: u16, request_id: Option<String> },
    ReadInputRegisters { slave_id: u8, address: u16, count: u16, request_id: Option<String> },
    ReadCoils { slave_id: u8, address: u16, count: u16, request_id: Option<String> },
    ReadDiscreteInputs { slave_id: u8, address: u16, count: u16, request_id: Option<String> },
    WriteSingleRegister { slave_id: u8, address: u16, value: u16, request_id: Option<String> },
    WriteMultipleRegisters {
        slave_id: u8,
        address: u16,
        values: Vec<u16>,
        request_id: Option<String>,
    },
    WriteSingleCoil { slave_id: u8, address: u16, value: bool, request_id: Option<String> },
    ScanBus {
        baud_rates: Vec<u32>,
        slave_id_start: u8,
        slave_id_end: u8,
        request_id: Option<String>,
    },
}

/// The content of an optional string.
pub open spec fn text_of(s: Option<String>) -> Option<Seq<char>> {
    match s {
        Some(s) => Some(s@),
        None => None,
    }
}

impl Cmd {
    /// The tag that the sender put on the command.
    pub open spec fn tag(self) -> Option<String> {
        match self {
            Cmd::ReadHoldingRegisters { request_id, .. } => request_id,
            Cmd::ReadInputRegisters { request_id, .. } => request_id,
            Cmd::ReadCoils { request_id, .. } => request_id,
            Cmd::ReadDiscreteInputs { request_id, .. } => request_id,
            Cmd::WriteSingleRegister { request_id, .. } => request_id,
            Cmd::WriteMultipleRegisters { request_id, .. } => request_id,
            Cmd::WriteSingleCoil { request_id, .. } => request_id,
            Cmd::ScanBus { request_id, .. } => request_id,
        }
    }

    /// The name of the command on the wire.
    pub open spec fn label(self) -> Seq<char> {
        match self {
            Cmd::ReadHoldingRegisters { .. } => "read_holding_registers"@,
            Cmd::ReadInputRegisters { .. } => "read_input_registers"@,
            Cmd::ReadCoils { .. } => "read_coils"@,
            Cmd::ReadDiscreteInputs { .. } => "read_discrete_inputs"@,
            Cmd::WriteSingleRegister { .. } => "write_single_register"@,
            Cmd::WriteMultipleRegisters { .. } => "write_multiple_registers"@,
            Cmd::WriteSingleCoil { .. } => "write_single_coil"@,
            Cmd::ScanBus { .. } => "scan_bus"@,
        }
    }

    /// The tag that the sender put on the command, if there is one.
    pub fn request_id(&self) -> (id: Option<&str>)
        ensures
            match id {
                Some(id) => text_of(self.tag()) == Some(id@),
                None => self.tag() is None,
            },
    {
        let tag: &Option<String> = match self {
            Cmd::ReadHoldingRegisters { request_id, .. } => request_id,
            Cmd::ReadInputRegisters { request_id, .. } => request_id,
            Cmd::ReadCoils { request_id, .. } => request_id,
            Cmd::ReadDiscreteInputs { request_id, .. } => request_id,
            Cmd::WriteSingleRegister { request_id, .. } => request_id,
            Cmd::WriteMultipleRegisters { request_id, .. } => request_id,
            Cmd::WriteSingleCoil { request_id, .. } => request_id,
            Cmd::ScanBus { request_id, .. } => request_id,
        };
        match tag {
            Some(id) => Some(id.as_str()),
            None => None,
        }
    }

    /// The name of the command, as its `action` member spells it.
    pub fn action_label(&self) -> (name: &'static str)
        ensures
            name@ == self.label(),
    {
        match self {
            Cmd::ReadHoldingRegisters { .. } => "read_holding_registers",
            Cmd::ReadInputRegisters { .. } => "read_input_registers",
            Cmd::ReadCoils { .. } => "read_coils",
            Cmd::ReadDiscreteInputs { .. } => "read_discrete_inputs",
            Cmd::WriteSingleRegister { .. } => "write_single_register",
            Cmd::WriteMultipleRegisters { .. } => "write_multiple_registers",
            Cmd::WriteSingleCoil { .. } => "write_single_coil",
            Cmd::ScanBus { .. } => "scan_bus",
        }
    }

    /// Whether the command asks for a scan of the bus.
    pub fn is_scan(&self) -> (scan: bool)
        ensures
            scan == (self is ScanBus),
    {
        match self {
            Cmd::ScanBus { .. } => true,
            _ => false,
        }
    }
}

} // verus!
