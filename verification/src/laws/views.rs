//! What stands for the values that come in and go out: nothing of them is lost or changed.

use crate::bridge;
use crate::bridge::{Publication, Reply, ReplyView};
use crate::data;
use crate::data::{Data, DataView, Outcome};
use crate::error::{Error, ErrorView};
use crate::json::{Json, JsonView};
use crate::port::{Action, ActionView, Event, EventView, PortSettings};
use crate::report::Rsp;
use vstd::prelude::*;

verus! {

/// An action stands for itself.
pub proof fn law_view_of_action(action: Action<'_>)
    ensures
        match action {
            Action::Open(settings) => action@ == ActionView::Open(settings@),
            Action::Pause(seconds) => action@ == ActionView::Pause(seconds),
            Action::SetBaudRate(rate) => action@ == ActionView::SetBaudRate(rate),
            Action::SetTimeout(millis) => action@ == ActionView::SetTimeout(millis),
            Action::ClearAll => action@ == ActionView::ClearAll,
            Action::ClearInput => action@ == ActionView::ClearInput,
            Action::Write(bytes) => action@ == ActionView::Write(bytes@),
            Action::Flush => action@ == ActionView::Flush,
            Action::Read(len) => action@ == ActionView::Read(len as nat),
            Action::Receive => action@ == ActionView::Receive,
            Action::TryReceive => action@ == ActionView::TryReceive,
            Action::Reply(to, outcome) => action@ == ActionView::Reply(
                to,
                data::outcome_view(*outcome),
            ),
            Action::Stop => action@ == ActionView::Stop,
            Action::Abort => action@ == ActionView::Abort,
        },
{
}

/// An event stands for itself, and its bytes are those that came back if and only if they are as
/// many as were to be read.
pub proof fn law_view_of_event(event: Event, len: nat)
    ensures
        match event {
            Event::Done => event@ == EventView::Done,
            Event::Failed => event@ == EventView::Failed,
            Event::Bytes(bytes) => event@ == EventView::Bytes(bytes@),
            Event::Command(cmd) => event@ == EventView::Command(cmd),
            Event::Nothing => event@ == EventView::Nothing,
        },
        event@.bytes(len) == match event {
            Event::Bytes(bytes) => if bytes@.len() == len {
                Some(bytes@)
            } else {
                None
            },
            _ => None,
        },
{
}

/// The settings of a port stand for themselves.
pub proof fn law_view_of_port_settings(settings: PortSettings)
    ensures
        settings@.path == settings.path@,
        settings@.baud_rate == settings.baud_rate,
        settings@.data_bits == settings.data_bits,
        settings@.parity == settings.parity,
        settings@.stop_bits == settings.stop_bits,
        settings@.timeout_ms == settings.timeout_ms,
{
}

/// A result stands for itself.
pub proof fn law_view_of_data(data: Data)
    ensures
        data@ == match data {
            Data::HoldingRegisters { slave_id, address, values } => DataView::HoldingRegisters {
                slave_id,
                address,
                values: values@,
            },
            Data::InputRegisters { slave_id, address, values } => DataView::InputRegisters {
                slave_id,
                address,
                values: values@,
            },
            Data::Coils { slave_id, address, values } => DataView::Coils {
                slave_id,
                address,
                values: values@,
            },
            Data::DiscreteInputs { slave_id, address, values } => DataView::DiscreteInputs {
                slave_id,
                address,
                values: values@,
            },
            Data::WriteRegister { slave_id, address, value } => DataView::WriteRegister {
                slave_id,
                address,
                value,
            },
            Data::WriteRegisters { slave_id, address, count } => DataView::WriteRegisters {
                slave_id,
                address,
                count: count as nat,
            },
            Data::WriteCoil { slave_id, address, value } => DataView::WriteCoil {
                slave_id,
                address,
                value,
            },
            Data::ScanResult { discovered } => DataView::ScanResult { discovered: discovered@ },
        },
{
}

/// An error stands for itself.
pub proof fn law_view_of_error(error: Error)
    ensures
        error@ == match error {
            Error::BuildFrame(fault) => ErrorView::BuildFrame(fault@),
            Error::SerialWrite => ErrorView::SerialWrite,
            Error::ReadHeader => ErrorView::ReadHeader,
            Error::Exception { func, code } => ErrorView::Exception { func, code },
            Error::UnexpectedFunction { got, expected } => ErrorView::UnexpectedFunction {
                got,
                expected,
            },
            Error::UnknownFunction { func } => ErrorView::UnknownFunction { func },
            Error::ReadBody => ErrorView::ReadBody,
            Error::Parse(fault) => ErrorView::Parse(fault@),
            Error::ScanDispatched => ErrorView::ScanDispatched,
            Error::ScanInProgress => ErrorView::ScanInProgress,
            Error::WorkerDropped => ErrorView::WorkerDropped,
        },
{
}

/// An outcome stands for itself.
pub proof fn law_view_of_outcome(outcome: Outcome)
    ensures
        match outcome {
            Ok(data) => data::outcome_view(outcome) == Ok::<DataView, ErrorView>(data@),
            Err(error) => data::outcome_view(outcome) == Err::<DataView, ErrorView>(error@),
        },
{
}

/// What came of a command stands for itself.
pub proof fn law_view_of_reply(reply: Reply)
    ensures
        match reply {
            Reply::Undelivered => reply@ == ReplyView::Undelivered,
            Reply::Dropped => reply@ == ReplyView::Dropped,
            Reply::Ended(outcome) => reply@ == ReplyView::Ended(data::outcome_view(outcome)),
        },
{
}

/// A response stands for itself.
pub proof fn law_view_of_response(rsp: Rsp)
    ensures
        rsp@.success == rsp.success,
        match rsp.data {
            Some(data) => rsp@.data == Some(data@),
            None => rsp@.data is None,
        },
        match rsp.error {
            Some(error) => rsp@.error == Some(error@),
            None => rsp@.error is None,
        },
        match rsp.request_id {
            Some(tag) => rsp@.request_id == Some(tag@),
            None => rsp@.request_id is None,
        },
{
}

/// A message to be published stands for itself.
pub proof fn law_view_of_publication(publication: Publication)
    ensures
        publication@.topic == publication.topic@,
        publication@.retain == publication.retain,
        publication@.body == publication.body@,
{
}

/// A document stands for itself, with all its items and members in order.
pub proof fn law_view_of_json(doc: Json)
    ensures
        match doc {
            Json::Bool(b) => doc@ == JsonView::Bool(b),
            Json::Number(n) => doc@ == JsonView::Number(n as nat),
            Json::Text(s) => doc@ == JsonView::Text(s@),
            Json::Array(items) => match doc@ {
                JsonView::Array(views) => {
                    &&& views.len() == items@.len()
                    &&& forall|i: int| 0 <= i < views.len() ==> #[trigger] views[i] == items@[i]@
                },
                _ => false,
            },
            Json::Object(members) => match doc@ {
                JsonView::Object(views) => {
                    &&& views.len() == members@.len()
                    &&& forall|i: int|
                        0 <= i < views.len() ==> (#[trigger] views[i]).0 == members@[i].0@
                            && views[i].1 == members@[i].1@
                },
                _ => false,
            },
        },
{
    reveal_with_fuel(<Json as View>::view, 2);
}

/// Messages to be published stand for themselves, all of them and in order.
pub proof fn law_view_of_publications(publications: Seq<Publication>)
    ensures
        bridge::publication_views(publications).len() == publications.len(),
        forall|i: int|
            0 <= i < publications.len() ==> #[trigger] bridge::publication_views(publications)[i]
                == publications[i]@,
{
}

/// A text that may be missing stands for itself.
pub proof fn law_view_of_optional_text(text: Option<String>)
    ensures
        match text {
            Some(s) => crate::command::text_of(text) == Some(s@),
            None => crate::command::text_of(text) is None,
        },
{
}

} // verus!
