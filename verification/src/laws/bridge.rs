//! What holds of the messages that the bridge publishes.

use crate::bridge;
use crate::bridge::{ReplyView, Ticket};
use crate::command;
use crate::data::DataView;
use crate::json::JsonView;
use crate::report;
use crate::report::RspView;
use vstd::prelude::*;

verus! {

/// The member of an object with the given name: the first one, where there are several.
pub open spec fn member(doc: JsonView, name: Seq<char>) -> Option<JsonView> {
    match doc {
        JsonView::Object(members) => first(members, name),
        _ => None,
    }
}

/// The first member with the given name.
pub open spec fn first(members: Seq<(Seq<char>, JsonView)>, name: Seq<char>) -> Option<JsonView>
    decreases members.len(),
{
    if members.len() == 0 {
        None
    } else if members[0].0 == name {
        Some(members[0].1)
    } else {
        first(members.drop_first(), name)
    }
}

/// The result in a response, as JSON.
pub open spec fn optional_data(data: Option<DataView>) -> Option<JsonView> {
    match data {
        Some(data) => Some(data.json()),
        None => None,
    }
}

/// The first member of two lists of members, one after the other.
proof fn lemma_first_of_two(
    front: Seq<(Seq<char>, JsonView)>,
    back: Seq<(Seq<char>, JsonView)>,
    name: Seq<char>,
)
    ensures
        first(front + back, name) == match first(front, name) {
            Some(content) => Some(content),
            None => first(back, name),
        },
    decreases front.len(),
{
    if front.len() == 0 {
        assert(front + back =~= back);
    } else {
        assert((front + back).drop_first() =~= front.drop_first() + back);
        lemma_first_of_two(front.drop_first(), back, name);
    }
}

proof fn lemma_first_of_optional(name: Seq<char>, content: Option<JsonView>, wanted: Seq<char>)
    ensures
        first(report::optional(name, content), wanted) == if name == wanted {
            content
        } else {
            None
        },
{
    reveal_with_fuel(first, 2);
}

/// The names of the members of a response are different.
proof fn lemma_names_differ()
    ensures
        "success"@ != "data"@,
        "success"@ != "error"@,
        "success"@ != "request_id"@,
        "data"@ != "error"@,
        "data"@ != "request_id"@,
        "error"@ != "request_id"@,
{
    reveal_strlit("success");
    reveal_strlit("data");
    reveal_strlit("error");
    reveal_strlit("request_id");
    assert("success"@.len() == 7 && "data"@.len() == 4 && "error"@.len() == 5);
    assert("request_id"@.len() == 10);
}

proof fn lemma_first_of_response(rsp: RspView, wanted: Seq<char>)
    requires
        wanted == "success"@ || wanted == "data"@ || wanted == "error"@ || wanted == "request_id"@,
    ensures
        member(rsp.json(), wanted) == if wanted == "success"@ {
            Some(JsonView::Bool(rsp.success))
        } else if wanted == "data"@ {
            optional_data(rsp.data)
        } else if wanted == "error"@ {
            report::optional_text(rsp.error)
        } else {
            report::optional_text(rsp.request_id)
        },
{
    lemma_names_differ();
    reveal_with_fuel(first, 2);
    let success = seq![("success"@, JsonView::Bool(rsp.success))];
    let data = report::optional("data"@, optional_data(rsp.data));
    let error = report::optional("error"@, report::optional_text(rsp.error));
    let request_id = report::optional("request_id"@, report::optional_text(rsp.request_id));
    lemma_first_of_two(success + data + error, request_id, wanted);
    lemma_first_of_two(success + data, error, wanted);
    lemma_first_of_two(success, data, wanted);
    lemma_first_of_optional("data"@, optional_data(rsp.data), wanted);
    lemma_first_of_optional("error"@, report::optional_text(rsp.error), wanted);
    lemma_first_of_optional("request_id"@, report::optional_text(rsp.request_id), wanted);
}

/// The members of a response are those of the fields that are there.
pub proof fn law_response_members(rsp: RspView)
    ensures
        member(rsp.json(), "success"@) == Some(JsonView::Bool(rsp.success)),
        member(rsp.json(), "data"@) == optional_data(rsp.data),
        member(rsp.json(), "error"@) == report::optional_text(rsp.error),
        member(rsp.json(), "request_id"@) == report::optional_text(rsp.request_id),
{
    lemma_names_differ();
    lemma_first_of_response(rsp, "success"@);
    lemma_first_of_response(rsp, "data"@);
    lemma_first_of_response(rsp, "error"@);
    lemma_first_of_response(rsp, "request_id"@);
}

/// A command that the serial side took is answered by exactly one message that is not retained,
/// which is the last one and goes to the response topic. A message before it is retained and goes
/// to the discovery topic; there is one if and only if a scan succeeded.
pub proof fn law_one_response_per_command(
    topic_rsp: Seq<char>,
    topic_discovered: Seq<char>,
    ticket: Ticket,
    reply: ReplyView,
)
    requires
        !(reply is Undelivered),
    ensures
        ({
            let published = bridge::conclusion(topic_rsp, topic_discovered, ticket, reply);
            &&& published.len() == if ticket.is_scan && bridge::told(reply) is Ok {
                2nat
            } else {
                1nat
            }
            &&& published.last().topic == topic_rsp
            &&& forall|i: int|
                0 <= i < published.len() ==> (#[trigger] published[i]).retain == (i
                    < published.len() - 1)
            &&& forall|i: int|
                0 <= i < published.len() - 1 ==> (#[trigger] published[i]).topic == topic_discovered
        }),
{
}

/// The response to a command says whether it succeeded. It has the result if it did, and the
/// reason if it did not, but never both; and it carries the tag of the command if it has one.
pub proof fn law_response_tells_the_outcome(
    topic_rsp: Seq<char>,
    topic_discovered: Seq<char>,
    ticket: Ticket,
    reply: ReplyView,
)
    requires
        !(reply is Undelivered),
    ensures
        ({
            let body = bridge::conclusion(topic_rsp, topic_discovered, ticket, reply).last().body;
            let outcome = bridge::told(reply);
            &&& member(body, "success"@) == Some(JsonView::Bool(outcome is Ok))
            &&& member(body, "data"@) == match outcome {
                Ok(data) => Some(data.json()),
                Err(_) => None,
            }
            &&& member(body, "error"@) == match outcome {
                Ok(_) => None,
                Err(error) => Some(JsonView::Text(error.message())),
            }
            &&& member(body, "request_id"@) == report::optional_text(
                command::text_of(ticket.request_id),
            )
        }),
{
    law_response_members(
        bridge::response(command::text_of(ticket.request_id), bridge::told(reply)),
    );
}

/// A message that is no command is answered by a response with the reason and nothing else.
pub proof fn law_refusal_tells_the_reason(reason: Seq<char>)
    ensures
        member(bridge::refusal(reason).json(), "success"@) == Some(JsonView::Bool(false)),
        member(bridge::refusal(reason).json(), "error"@) == Some(
            JsonView::Text("parse error: "@ + reason),
        ),
        member(bridge::refusal(reason).json(), "data"@) is None,
        member(bridge::refusal(reason).json(), "request_id"@) is None,
{
    law_response_members(bridge::refusal(reason));
}

/// The result of a scan goes to the discovery topic in the same message whether a command asked
/// for the scan or the start of the bridge did.
pub proof fn law_scans_are_announced_alike(
    topic_rsp: Seq<char>,
    topic_discovered: Seq<char>,
    ticket: Ticket,
    reply: ReplyView,
)
    requires
        ticket.is_scan,
    ensures
        match bridge::startup_report(topic_discovered, reply) {
            Some(announced) => {
                let published = bridge::conclusion(topic_rsp, topic_discovered, ticket, reply);
                published.len() == 2 && published[0] == announced
            },
            None => bridge::conclusion(topic_rsp, topic_discovered, ticket, reply).len() <= 1,
        },
{
}

} // verus!
