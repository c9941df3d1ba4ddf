//! What is published, told by the names of its members; and what the errors say.

use crate::bridge;
use crate::bridge::{ReplyView, Ticket};
use crate::command::Cmd;
use crate::data::{DataView, Device};
use crate::error::ErrorView;
use crate::json::JsonView;
use crate::laws::bridge as lookup;
use crate::laws::settings;
use crate::report::RspView;
use crate::text;
use vstd::prelude::*;

verus! {

/// The names of the members of an object, in order.
pub open spec fn names(doc: JsonView) -> Seq<Seq<char>> {
    match doc {
        JsonView::Object(members) => Seq::new(members.len(), |i: int| members[i].0),
        _ => Seq::empty(),
    }
}

/// The number under a name.
pub open spec fn has_number(doc: JsonView, name: Seq<char>, n: nat) -> bool {
    lookup::member(doc, name) == Some(JsonView::Number(n))
}

/// The text under a name.
pub open spec fn has_text(doc: JsonView, name: Seq<char>, s: Seq<char>) -> bool {
    lookup::member(doc, name) == Some(JsonView::Text(s))
}

/// The truth value under a name.
pub open spec fn has_bool(doc: JsonView, name: Seq<char>, b: bool) -> bool {
    lookup::member(doc, name) == Some(JsonView::Bool(b))
}

/// Exactly these numbers under a name, in order.
pub open spec fn has_numbers(doc: JsonView, name: Seq<char>, values: Seq<u16>) -> bool {
    match lookup::member(doc, name) {
        Some(JsonView::Array(items)) => {
            &&& items.len() == values.len()
            &&& forall|i: int|
                0 <= i < values.len() ==> #[trigger] items[i] == JsonView::Number(values[i] as nat)
        },
        _ => false,
    }
}

/// Exactly these truth values under a name, in order.
pub open spec fn has_bools(doc: JsonView, name: Seq<char>, values: Seq<bool>) -> bool {
    match lookup::member(doc, name) {
        Some(JsonView::Array(items)) => {
            &&& items.len() == values.len()
            &&& forall|i: int|
                0 <= i < values.len() ==> #[trigger] items[i] == JsonView::Bool(values[i])
        },
        _ => false,
    }
}

/// The documents of exactly these devices under a name, in order.
pub open spec fn has_devices(doc: JsonView, name: Seq<char>, devices: Seq<Device>) -> bool {
    match lookup::member(doc, name) {
        Some(JsonView::Array(items)) => {
            &&& items.len() == devices.len()
            &&& forall|i: int|
                0 <= i < devices.len() ==> #[trigger] items[i] == devices[i].json()
        },
        _ => false,
    }
}

/// A member whose name none before it has is the one under that name.
proof fn lemma_first_at(members: Seq<(Seq<char>, JsonView)>, i: int)
    requires
        0 <= i < members.len(),
        forall|j: int| 0 <= j < i ==> (#[trigger] members[j]).0 != members[i].0,
    ensures
        lookup::first(members, members[i].0) == Some(members[i].1),
    decreases i,
{
    if i > 0 {
        assert(members[0].0 != members[i].0);
        let rest = members.drop_first();
        assert forall|j: int| 0 <= j < i - 1 implies (#[trigger] rest[j]).0 != rest[i - 1].0 by {
            assert(rest[j] == members[j + 1]);
        }
        lemma_first_at(rest, i - 1);
    }
}

/// Members with different names are each found under their own.
proof fn lemma_all_first(members: Seq<(Seq<char>, JsonView)>)
    requires
        forall|i: int, j: int|
            0 <= i < j < members.len() ==> (#[trigger] members[i]).0 != (#[trigger] members[j]).0,
    ensures
        forall|i: int|
            0 <= i < members.len() ==> lookup::member(
                JsonView::Object(members),
                (#[trigger] members[i]).0,
            ) == Some(members[i].1),
{
    assert forall|i: int| 0 <= i < members.len() implies lookup::member(
        JsonView::Object(members),
        (#[trigger] members[i]).0,
    ) == Some(members[i].1) by {
        lemma_first_at(members, i);
    }
}

/// The names that occur together are different.
proof fn lemma_names()
    ensures
        "baud_rate"@.len() == 9,
        "coils"@.len() == 5,
        "discrete_inputs"@.len() == 15,
        "holding_registers"@.len() == 17,
        "input_registers"@.len() == 15,
        "discrete_inputs"@ != "input_registers"@,
        "slave_id"@.len() == 8,
        "address"@.len() == 7,
        "type"@.len() == 4,
        "values"@.len() == 6,
        "value"@.len() == 5,
        "count"@.len() == 5,
        "discovered"@.len() == 10,
        "serial_port"@.len() == 11,
        "status"@.len() == 6,
{
    reveal_strlit("baud_rate");
    reveal_strlit("coils");
    reveal_strlit("discrete_inputs");
    reveal_strlit("holding_registers");
    reveal_strlit("input_registers");
    reveal_strlit("slave_id");
    reveal_strlit("address");
    reveal_strlit("type");
    reveal_strlit("values");
    reveal_strlit("value");
    reveal_strlit("count");
    reveal_strlit("discovered");
    reveal_strlit("serial_port");
    reveal_strlit("status");
    assert("discrete_inputs"@[0] != "input_registers"@[0]);
}

/// The document of a device has its slave id, its baud rate, and how many items of each kind it
/// serves, each under its own name, and nothing else.
pub proof fn law_device_document(device: Device)
    ensures
        has_number(device.json(), "slave_id"@, device.slave_id as nat),
        has_number(device.json(), "baud_rate"@, device.baud_rate as nat),
        has_number(device.json(), "coils"@, device.caps.coils as nat),
        has_number(device.json(), "discrete_inputs"@, device.caps.discrete_inputs as nat),
        has_number(device.json(), "holding_registers"@, device.caps.holding_registers as nat),
        has_number(device.json(), "input_registers"@, device.caps.input_registers as nat),
        names(device.json()) == seq![
            "baud_rate"@,
            "coils"@,
            "discrete_inputs"@,
            "holding_registers"@,
            "input_registers"@,
            "slave_id"@,
        ],
{
    lemma_names();
    let members = device.json()->Object_0;
    assert(members[0].0 == "baud_rate"@ && members[1].0 == "coils"@);
    assert(members[2].0 == "discrete_inputs"@ && members[3].0 == "holding_registers"@);
    assert(members[4].0 == "input_registers"@ && members[5].0 == "slave_id"@);
    lemma_all_first(members);
    assert(names(device.json()) =~= seq![
        "baud_rate"@,
        "coils"@,
        "discrete_inputs"@,
        "holding_registers"@,
        "input_registers"@,
        "slave_id"@,
    ]);
}

/// The document of a result says of what kind it is, which slave and which address it is about, and
/// what was read or written there, each under its own name, and nothing else. That of a scan has
/// the documents of all devices that were found, in order.
pub proof fn law_result_document(data: DataView)
    ensures
        match data {
            DataView::HoldingRegisters { slave_id, address, values } => {
                &&& has_text(data.json(), "type"@, "holding_registers"@)
                &&& has_number(data.json(), "slave_id"@, slave_id as nat)
                &&& has_number(data.json(), "address"@, address as nat)
                &&& has_numbers(data.json(), "values"@, values)
            },
            DataView::InputRegisters { slave_id, address, values } => {
                &&& has_text(data.json(), "type"@, "input_registers"@)
                &&& has_number(data.json(), "slave_id"@, slave_id as nat)
                &&& has_number(data.json(), "address"@, address as nat)
                &&& has_numbers(data.json(), "values"@, values)
            },
            DataView::Coils { slave_id, address, values } => {
                &&& has_text(data.json(), "type"@, "coils"@)
                &&& has_number(data.json(), "slave_id"@, slave_id as nat)
                &&& has_number(data.json(), "address"@, address as nat)
                &&& has_bools(data.json(), "values"@, values)
            },
            DataView::DiscreteInputs { slave_id, address, values } => {
                &&& has_text(data.json(), "type"@, "discrete_inputs"@)
                &&& has_number(data.json(), "slave_id"@, slave_id as nat)
                &&& has_number(data.json(), "address"@, address as nat)
                &&& has_bools(data.json(), "values"@, values)
            },
            DataView::WriteRegister { slave_id, address, value } => {
                &&& has_text(data.json(), "type"@, "write_register"@)
                &&& has_number(data.json(), "slave_id"@, slave_id as nat)
                &&& has_number(data.json(), "address"@, address as nat)
                &&& has_number(data.json(), "value"@, value as nat)
            },
            DataView::WriteRegisters { slave_id, address, count } => {
                &&& has_text(data.json(), "type"@, "write_registers"@)
                &&& has_number(data.json(), "slave_id"@, slave_id as nat)
                &&& has_number(data.json(), "address"@, address as nat)
                &&& has_number(data.json(), "count"@, count)
            },
            DataView::WriteCoil { slave_id, address, value } => {
                &&& has_text(data.json(), "type"@, "write_coil"@)
                &&& has_number(data.json(), "slave_id"@, slave_id as nat)
                &&& has_number(data.json(), "address"@, address as nat)
                &&& has_bool(data.json(), "value"@, value)
            },
            DataView::ScanResult { discovered } => {
                &&& has_text(data.json(), "type"@, "scan_result"@)
                &&& has_devices(data.json(), "discovered"@, discovered)
            },
        },
        names(data.json()) == match data {
            DataView::WriteRegister { .. } => seq!["address"@, "slave_id"@, "type"@, "value"@],
            DataView::WriteCoil { .. } => seq!["address"@, "slave_id"@, "type"@, "value"@],
            DataView::WriteRegisters { .. } => seq!["address"@, "count"@, "slave_id"@, "type"@],
            DataView::ScanResult { .. } => seq!["discovered"@, "type"@],
            _ => seq!["address"@, "slave_id"@, "type"@, "values"@],
        },
{
    lemma_names();
    let members = data.json()->Object_0;
    match data {
        DataView::ScanResult { .. } => {
            assert(members[0].0 == "discovered"@ && members[1].0 == "type"@);
            lemma_all_first(members);
            assert(names(data.json()) =~= seq!["discovered"@, "type"@]);
        },
        DataView::WriteRegisters { .. } => {
            assert(members[0].0 == "address"@ && members[1].0 == "count"@);
            assert(members[2].0 == "slave_id"@ && members[3].0 == "type"@);
            lemma_all_first(members);
            assert(names(data.json()) =~= seq!["address"@, "count"@, "slave_id"@, "type"@]);
        },
        DataView::WriteRegister { .. } | DataView::WriteCoil { .. } => {
            assert(members[0].0 == "address"@ && members[1].0 == "slave_id"@);
            assert(members[2].0 == "type"@ && members[3].0 == "value"@);
            lemma_all_first(members);
            assert(names(data.json()) =~= seq!["address"@, "slave_id"@, "type"@, "value"@]);
        },
        _ => {
            assert(members[0].0 == "address"@ && members[1].0 == "slave_id"@);
            assert(members[2].0 == "type"@ && members[3].0 == "values"@);
            lemma_all_first(members);
            assert(names(data.json()) =~= seq!["address"@, "slave_id"@, "type"@, "values"@]);
        },
    }
}

/// The document that says that the bridge is there has the port, the baud rate, and the word
/// `online`, each under its own name, and nothing else.
pub proof fn law_status_document(serial_port: Seq<char>, baud_rate: u32)
    ensures
        has_text(bridge::status_json(serial_port, baud_rate), "status"@, "online"@),
        has_text(bridge::status_json(serial_port, baud_rate), "serial_port"@, serial_port),
        has_number(bridge::status_json(serial_port, baud_rate), "baud_rate"@, baud_rate as nat),
        names(bridge::status_json(serial_port, baud_rate)) == seq![
            "baud_rate"@,
            "serial_port"@,
            "status"@,
        ],
{
    lemma_names();
    let doc = bridge::status_json(serial_port, baud_rate);
    let members = doc->Object_0;
    assert(members[0].0 == "baud_rate"@ && members[1].0 == "serial_port"@);
    assert(members[2].0 == "status"@);
    lemma_all_first(members);
    assert(names(doc) =~= seq!["baud_rate"@, "serial_port"@, "status"@]);
}

/// Whether a document is a response: it says whether the command succeeded, and has the result, the
/// reason and the tag under their names, as far as they are there, and nothing else.
pub open spec fn responds(
    doc: JsonView,
    success: bool,
    data: Option<DataView>,
    error: Option<Seq<char>>,
    tag: Option<Seq<char>>,
) -> bool {
    &&& has_bool(doc, "success"@, success)
    &&& lookup::member(doc, "data"@) == match data {
        Some(data) => Some(data.json()),
        None => None,
    }
    &&& lookup::member(doc, "error"@) == match error {
        Some(error) => Some(JsonView::Text(error)),
        None => None,
    }
    &&& lookup::member(doc, "request_id"@) == match tag {
        Some(tag) => Some(JsonView::Text(tag)),
        None => None,
    }
    &&& names(doc).len() == 1 + (if data is Some {
        1int
    } else {
        0
    }) + (if error is Some {
        1int
    } else {
        0
    }) + (if tag is Some {
        1int
    } else {
        0
    })
}

/// The document of a response has what the response has.
pub proof fn law_response_document(rsp: RspView)
    ensures
        responds(rsp.json(), rsp.success, rsp.data, rsp.error, rsp.request_id),
{
    lookup::law_response_members(rsp);
}

/// A response is published on the topic for responses, and is not retained.
pub proof fn law_response_is_published(topic: Seq<char>, rsp: RspView)
    ensures
        bridge::response_publication(topic, rsp).topic == topic,
        !bridge::response_publication(topic, rsp).retain,
        responds(
            bridge::response_publication(topic, rsp).body,
            rsp.success,
            rsp.data,
            rsp.error,
            rsp.request_id,
        ),
{
    law_response_document(rsp);
}

/// A message that is no command is answered by a response that says why it is none.
pub proof fn law_refusal_is_published(topic: Seq<char>, reason: Seq<char>)
    ensures
        bridge::response_publication(topic, bridge::refusal(reason)).topic == topic,
        !bridge::response_publication(topic, bridge::refusal(reason)).retain,
        responds(
            bridge::response_publication(topic, bridge::refusal(reason)).body,
            false,
            None,
            Some("parse error: "@ + reason),
            None,
        ),
{
    law_response_document(bridge::refusal(reason));
}

/// The text of a tag.
pub open spec fn tag_text(tag: Option<String>) -> Option<Seq<char>> {
    match tag {
        Some(tag) => Some(tag@),
        None => None,
    }
}

/// What is published for a command follows from what came of it. Nothing, where it could not be
/// handed over. Else one response on the topic for responses, with the tag of the command: with the
/// result where there is one, with the reason where it failed, and with a reason of its own where
/// no answer came. Before it, and only where a scan succeeded, the result on the topic for
/// discoveries, retained.
pub proof fn law_what_is_published_for_a_command(
    topic_rsp: Seq<char>,
    topic_discovered: Seq<char>,
    ticket: Ticket,
    reply: ReplyView,
)
    ensures
        ({
            let published = bridge::conclusion(topic_rsp, topic_discovered, ticket, reply);
            let tag = tag_text(ticket.request_id);
            match reply {
                ReplyView::Undelivered => published.len() == 0,
                ReplyView::Dropped => {
                    &&& published.len() == 1
                    &&& published[0].topic == topic_rsp
                    &&& !published[0].retain
                    &&& responds(
                        published[0].body,
                        false,
                        None,
                        Some("modbus thread dropped"@),
                        tag,
                    )
                },
                ReplyView::Ended(Err(error)) => {
                    &&& published.len() == 1
                    &&& published[0].topic == topic_rsp
                    &&& !published[0].retain
                    &&& responds(published[0].body, false, None, Some(error.message()), tag)
                },
                ReplyView::Ended(Ok(data)) => {
                    &&& published.len() == if ticket.is_scan {
                        2int
                    } else {
                        1
                    }
                    &&& ticket.is_scan ==> {
                        &&& published[0].topic == topic_discovered
                        &&& published[0].retain
                        &&& published[0].body == data.json()
                    }
                    &&& published.last().topic == topic_rsp
                    &&& !published.last().retain
                    &&& responds(published.last().body, true, Some(data), None, tag)
                },
            }
        }),
{
    let rsp = bridge::response(crate::command::text_of(ticket.request_id), bridge::told(reply));
    law_response_document(rsp);
}

/// The scan at start-up is announced on the topic for discoveries, retained, if and only if it
/// succeeded.
pub proof fn law_what_is_published_at_startup(topic: Seq<char>, reply: ReplyView)
    ensures
        match reply {
            ReplyView::Ended(Ok(data)) => match bridge::startup_report(topic, reply) {
                Some(publication) => {
                    &&& publication.topic == topic
                    &&& publication.retain
                    &&& publication.body == data.json()
                },
                None => false,
            },
            _ => bridge::startup_report(topic, reply) is None,
        },
{
}

/// A hexadecimal digit.
pub open spec fn hex_digit(value: int) -> char {
    if value <= 9 {
        (48 + value) as char
    } else {
        (97 + value - 10) as char
    }
}

/// A byte as the errors spell it: `0x` and two hexadecimal digits.
pub open spec fn hex(byte: u8) -> Seq<char> {
    "0x"@.push(hex_digit(byte as int / 16)).push(hex_digit(byte as int % 16))
}

proof fn lemma_hex(byte: u8)
    ensures
        text::hex_byte(byte) == hex(byte),
{
    reveal_strlit("0x");
    assert(text::hex_byte(byte) =~= hex(byte));
}

/// What each error says.
pub proof fn law_error_messages(error: ErrorView)
    ensures
        error.message() == match error {
            ErrorView::BuildFrame(fault) => "build frame: "@ + fault,
            ErrorView::SerialWrite => "serial write"@,
            ErrorView::ReadHeader => "reading RTU header"@,
            ErrorView::Exception { func, code } => "Modbus exception (func="@ + hex(func)
                + ", code="@ + settings::numeral(code as nat) + ")"@,
            ErrorView::UnexpectedFunction { got, expected } => "Unexpected function code: got "@
                + hex(got) + ", expected "@ + hex(expected),
            ErrorView::UnknownFunction { func } => "Unknown function code "@ + hex(func),
            ErrorView::ReadBody => "reading RTU body"@,
            ErrorView::Parse(fault) => "parse: "@ + fault,
            ErrorView::ScanDispatched => "internal: ScanBus must not be dispatched to run_cmd"@,
            ErrorView::ScanInProgress => "scan already in progress, try again later"@,
            ErrorView::WorkerDropped => "modbus thread dropped"@,
        },
{
    match error {
        ErrorView::Exception { func, code } => {
            lemma_hex(func);
            settings::law_numeral_spells(code as nat);
        },
        ErrorView::UnexpectedFunction { got, expected } => {
            lemma_hex(got);
            lemma_hex(expected);
        },
        ErrorView::UnknownFunction { func } => lemma_hex(func),
        _ => {},
    }
}

/// The name and the tag of a command are its own.
pub proof fn law_command_name_and_tag(cmd: Cmd)
    ensures
        match cmd {
            Cmd::ReadHoldingRegisters { request_id, .. } => cmd.tag() == request_id && cmd.label()
                == "read_holding_registers"@,
            Cmd::ReadInputRegisters { request_id, .. } => cmd.tag() == request_id && cmd.label()
                == "read_input_registers"@,
            Cmd::ReadCoils { request_id, .. } => cmd.tag() == request_id && cmd.label()
                == "read_coils"@,
            Cmd::ReadDiscreteInputs { request_id, .. } => cmd.tag() == request_id && cmd.label()
                == "read_discrete_inputs"@,
            Cmd::WriteSingleRegister { request_id, .. } => cmd.tag() == request_id && cmd.label()
                == "write_single_register"@,
            Cmd::WriteMultipleRegisters { request_id, .. } => cmd.tag() == request_id
                && cmd.label() == "write_multiple_registers"@,
            Cmd::WriteSingleCoil { request_id, .. } => cmd.tag() == request_id && cmd.label()
                == "write_single_coil"@,
            Cmd::ScanBus { request_id, .. } => cmd.tag() == request_id && cmd.label()
                == "scan_bus"@,
        },
{
}

} // verus!
