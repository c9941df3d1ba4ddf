//! Results and responses as JSON documents.
//!
//! The members of a result stand in alphabetical order.

use crate::data::{Data, DataView, Device};
use crate::json;
use crate::json::{bool_array, number_array, object, put, text, Json, JsonView};
use vstd::prelude::*;

verus! {

impl Device {
    /// The device as a JSON object.
    pub open spec fn json(self) -> JsonView {
        JsonView::Object(
            seq![
                ("baud_rate"@, JsonView::Number(self.baud_rate as nat)),
                ("coils"@, JsonView::Number(self.caps.coils as nat)),
                ("discrete_inputs"@, JsonView::Number(self.caps.discrete_inputs as nat)),
                ("holding_registers"@, JsonView::Number(self.caps.holding_registers as nat)),
                ("input_registers"@, JsonView::Number(self.caps.input_registers as nat)),
                ("slave_id"@, JsonView::Number(self.slave_id as nat)),
            ],
        )
    }

    /// The device as a JSON object.
    pub fn to_json(&self) -> (doc: Json)
        ensures
            doc@ == self.json(),
    {
        let mut members: Vec<(String, Json)> = Vec::new();
        put(&mut members, "baud_rate", Json::Number(self.baud_rate as u64));
        put(&mut members, "coils", Json::Number(self.caps.coils as u64));
        put(&mut members, "discrete_inputs", Json::Number(self.caps.discrete_inputs as u64));
        put(&mut members, "holding_registers", Json::Number(self.caps.holding_registers as u64));
        put(&mut members, "input_registers", Json::Number(self.caps.input_registers as u64));
        put(&mut members, "slave_id", Json::Number(self.slave_id as u64));
        assert(json::member_views(members@) =~= self.json()->Object_0);
        object(members)
    }
}

/// Devices as array items.
pub open spec fn device_items(devices: Seq<Device>) -> Seq<JsonView> {
    Seq::new(devices.len(), |i: int| devices[i].json())
}

/// An array of devices.
fn device_array(devices: &Vec<Device>) -> (doc: Json)
    ensures
        doc@ == JsonView::Array(device_items(devices@)),
{
    let mut items: Vec<Json> = Vec::new();
    let mut i: usize = 0;
    while i < devices.len()
        invariant
            i <= devices@.len(),
            json::item_views(items@) == device_items(devices@.take(i as int)),
        decreases devices@.len() - i,
    {
        let ghost before = items@;
        items.push(devices[i].to_json());
        assert(json::item_views(items@) =~= json::item_views(before).push(
            devices@[i as int].json(),
        ));
        assert(device_items(devices@.take(i + 1)) =~= device_items(devices@.take(i as int)).push(
            devices@[i as int].json(),
        ));
        i += 1;
    }
    assert(devices@.take(i as int) =~= devices@);
    json::array(items)
}

/// The object that says what was read or written where: address, slave id, kind and values.
pub open spec fn transfer(
    slave_id: u8,
    address: u16,
    kind: Seq<char>,
    name: Seq<char>,
    content: JsonView,
) -> JsonView {
    JsonView::Object(
        seq![
            ("address"@, JsonView::Number(address as nat)),
            ("slave_id"@, JsonView::Number(slave_id as nat)),
            ("type"@, JsonView::Text(kind)),
            (name, content),
        ],
    )
}

/// The object that says what was read or written where.
fn transfer_object(slave_id: u8, address: u16, kind: &str, name: &str, content: Json) -> (doc: Json)
    ensures
        doc@ == transfer(slave_id, address, kind@, name@, content@),
{
    let ghost view = content@;
    let mut members: Vec<(String, Json)> = Vec::new();
    put(&mut members, "address", Json::Number(address as u64));
    put(&mut members, "slave_id", Json::Number(slave_id as u64));
    put(&mut members, "type", text(kind));
    put(&mut members, name, content);
    assert(json::member_views(members@) =~= transfer(
        slave_id,
        address,
        kind@,
        name@,
        view,
    )->Object_0);
    object(members)
}

impl DataView {
    /// The result as a JSON document.
    pub open spec fn json(self) -> JsonView {
        match self {
            DataView::HoldingRegisters { slave_id, address, values } => transfer(
                slave_id,
                address,
                "holding_registers"@,
                "values"@,
                JsonView::Array(json::number_items(values)),
            ),
            DataView::InputRegisters { slave_id, address, values } => transfer(
                slave_id,
                address,
                "input_registers"@,
                "values"@,
                JsonView::Array(json::number_items(values)),
            ),
            DataView::Coils { slave_id, address, values } => transfer(
                slave_id,
                address,
                "coils"@,
                "values"@,
                JsonView::Array(json::bool_items(values)),
            ),
            DataView::DiscreteInputs { slave_id, address, values } => transfer(
                slave_id,
                address,
                "discrete_inputs"@,
                "values"@,
                JsonView::Array(json::bool_items(values)),
            ),
            DataView::WriteRegister { slave_id, address, value } => transfer(
                slave_id,
                address,
                "write_register"@,
                "value"@,
                JsonView::Number(value as nat),
            ),
            DataView::WriteRegisters { slave_id, address, count } => JsonView::Object(
                seq![
                    ("address"@, JsonView::Number(address as nat)),
                    ("count"@, JsonView::Number(count)),
                    ("slave_id"@, JsonView::Number(slave_id as nat)),
                    ("type"@, JsonView::Text("write_registers"@)),
                ],
            ),
            DataView::WriteCoil { slave_id, address, value } => transfer(
                slave_id,
                address,
                "write_coil"@,
                "value"@,
                JsonView::Bool(value),
            ),
            DataView::ScanResult { discovered } => JsonView::Object(
                seq![
                    ("discovered"@, JsonView::Array(device_items(discovered))),
                    ("type"@, JsonView::Text("scan_result"@)),
                ],
            ),
        }
    }
}

impl Data {
    /// The result as a JSON document.
    pub fn to_json(&self) -> (doc: Json)
        ensures
            doc@ == self@.json(),
    {
        match self {
            Data::HoldingRegisters { slave_id, address, values } => transfer_object(
                *slave_id,
                *address,
                "holding_registers",
                "values",
                number_array(values),
            ),
            Data::InputRegisters { slave_id, address, values } => transfer_object(
                *slave_id,
                *address,
                "input_registers",
                "values",
                number_array(values),
            ),
            Data::Coils { slave_id, address, values } => transfer_object(
                *slave_id,
                *address,
                "coils",
                "values",
                bool_array(values),
            ),
            Data::DiscreteInputs { slave_id, address, values } => transfer_object(
                *slave_id,
                *address,
                "discrete_inputs",
                "values",
                bool_array(values),
            ),
            Data::WriteRegister { slave_id, address, value } => transfer_object(
                *slave_id,
                *address,
                "write_register",
                "value",
                Json::Number(*value as u64),
            ),
            Data::WriteRegisters { slave_id, address, count } => {
                let mut members: Vec<(String, Json)> = Vec::new();
                put(&mut members, "address", Json::Number(*address as u64));
                put(&mut members, "count", Json::Number(*count as u64));
                put(&mut members, "slave_id", Json::Number(*slave_id as u64));
                put(&mut members, "type", text("write_registers"));
                assert(json::member_views(members@) =~= self@.json()->Object_0);
                object(members)
            },
            Data::WriteCoil { slave_id, address, value } => transfer_object(
                *slave_id,
                *address,
                "write_coil",
                "value",
                Json::Bool(*value),
            ),
            Data::ScanResult { discovered } => {
                let mut members: Vec<(String, Json)> = Vec::new();
                put(&mut members, "discovered", device_array(discovered));
                put(&mut members, "type", text("scan_result"));
                assert(json::member_views(members@) =~= self@.json()->Object_0);
                object(members)
            },
        }
    }
}

/// The response to a command.
#[derive(Debug, Clone, PartialEq)]
pub struct Rsp {
    pub success: bool,
    pub data: Option<Data>,
    pub error: Option<String>,
    pub request_id: Option<String>,
}

/// The mathematical content of an [`Rsp`].
pub struct RspView {
    pub success: bool,
    pub data: Option<DataView>,
    pub error: Option<Seq<char>>,
    pub request_id: Option<Seq<char>>,
}

impl View for Rsp {
    type V = RspView;

    open spec fn view(&self) -> RspView {
        RspView {
            success: self.success,
            data: match self.data {
                Some(data) => Some(data@),
                None => None,
            },
            error: crate::command::text_of(self.error),
            request_id: crate::command::text_of(self.request_id),
        }
    }
}

/// The members of an object that are there when `content` is.
pub open spec fn optional(name: Seq<char>, content: Option<JsonView>) -> Seq<
    (Seq<char>, JsonView),
> {
    match content {
        Some(content) => seq![(name, content)],
        None => Seq::empty(),
    }
}

/// A text that may be missing, as JSON.
pub open spec fn optional_text(s: Option<Seq<char>>) -> Option<JsonView> {
    match s {
        Some(s) => Some(JsonView::Text(s)),
        None => None,
    }
}

impl RspView {
    /// The response as a JSON document: what is missing is left out.
    pub open spec fn json(self) -> JsonView {
        let data = match self.data {
            Some(data) => Some(data.json()),
            None => None,
        };
        JsonView::Object(
            seq![("success"@, JsonView::Bool(self.success))] + optional("data"@, data) + optional(
                "error"@,
                optional_text(self.error),
            ) + optional("request_id"@, optional_text(self.request_id)),
        )
    }
}

impl Rsp {
    /// The response as a JSON document: what is missing is left out.
    pub fn to_json(&self) -> (doc: Json)
        ensures
            doc@ == self@.json(),
    {
        let mut members: Vec<(String, Json)> = Vec::new();
        put(&mut members, "success", Json::Bool(self.success));
        if let Some(data) = &self.data {
            put(&mut members, "data", data.to_json());
        }
        if let Some(error) = &self.error {
            put(&mut members, "error", text(error.as_str()));
        }
        if let Some(request_id) = &self.request_id {
            put(&mut members, "request_id", text(request_id.as_str()));
        }
        assert(json::member_views(members@) =~= self@.json()->Object_0);
        object(members)
    }
}

} // verus!
