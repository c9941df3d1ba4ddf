//! The MQTT side: what is subscribed to, and what is published when.

use crate::command;
use crate::command::Cmd;
use crate::config::Config;
use crate::data;
use crate::data::{Outcome, OutcomeView};
use crate::error::{Error, ErrorView};
use crate::json;
use crate::json::{object, put, text, Json, JsonView};
use crate::report::{Rsp, RspView};
use vstd::prelude::*;

verus! {

/// The quality of service of every subscription and publication: at least once.
pub const QOS: u8 = 1;

/// How long the bridge waits after a fault of the connection before it goes on, in seconds.
pub const RECONNECT_SECONDS: u64 = 5;

/// A message to be published.
#[derive(Debug, PartialEq)]
pub struct Publication {
    pub topic: String,
    /// Whether the broker is to keep the message for those who subscribe later.
    pub retain: bool,
    pub body: Json,
}

/// The mathematical content of a [`Publication`].
pub struct PublicationView {
    pub topic: Seq<char>,
    pub retain: bool,
    pub body: JsonView,
}

impl View for Publication {
    type V = PublicationView;

    open spec fn view(&self) -> PublicationView {
        PublicationView { topic: self.topic@, retain: self.retain, body: self.body@ }
    }
}

/// The content of several publications.
pub open spec fn publication_views(publications: Seq<Publication>) -> Seq<PublicationView> {
    Seq::new(publications.len(), |i: int| publications[i]@)
}

/// What is kept of a command until its response.
#[derive(Debug, Clone, PartialEq, Eq)]
pub struct Ticket {
    pub is_scan: bool,
    pub request_id: Option<String>,
}

/// What came of a command that was handed to the serial side.
#[derive(Debug)]
pub enum Reply {
    /// The serial side takes no commands any more.
    Undelivered,
    /// The serial side went away without an answer.
    Dropped,
    /// The command came to an end.
    Ended(Outcome),
}

/// The mathematical content of a [`Reply`].
pub enum ReplyView {
    Undelivered,
    Dropped,
    Ended(OutcomeView),
}

impl View for Reply {
    type V = ReplyView;

    open spec fn view(&self) -> ReplyView {
        match *self {
            Reply::Undelivered => ReplyView::Undelivered,
            Reply::Dropped => ReplyView::Dropped,
            Reply::Ended(outcome) => ReplyView::Ended(data::outcome_view(outcome)),
        }
    }
}

/// What is done with a message on the command topic.
#[derive(Debug)]
pub enum Admission {
    /// The command goes to the serial side.
    Forward(Cmd, Ticket),
    /// The message is no command, and this is published at once.
    Refuse(Publication),
}

/// What is done when the broker has accepted the connection.
#[derive(Debug)]
pub struct Connected {
    /// The topic to subscribe to.
    pub subscribe: String,
    /// The message to publish once that was asked for.
    pub status: Publication,
    /// The command to hand to the serial side, if any.
    pub scan: Option<Cmd>,
}

/// The document that says that the bridge is there.
pub open spec fn status_json(serial_port: Seq<char>, baud_rate: u32) -> JsonView {
    JsonView::Object(
        seq![
            ("baud_rate"@, JsonView::Number(baud_rate as nat)),
            ("serial_port"@, JsonView::Text(serial_port)),
            ("status"@, JsonView::Text("online"@)),
        ],
    )
}

/// The message that carries a response.
pub open spec fn response_publication(topic: Seq<char>, rsp: RspView) -> PublicationView {
    PublicationView { topic, retain: false, body: rsp.json() }
}

/// The message that carries the result of a scan to those who look for devices.
pub open spec fn discovery(topic: Seq<char>, body: JsonView) -> PublicationView {
    PublicationView { topic, retain: true, body }
}

/// The response to a message that is no command.
pub open spec fn refusal(reason: Seq<char>) -> RspView {
    RspView { success: false, data: None, error: Some("parse error: "@ + reason), request_id: None }
}

/// The response to a command that came to an end.
pub open spec fn response(request_id: Option<Seq<char>>, outcome: OutcomeView) -> RspView {
    match outcome {
        Ok(data) => RspView { success: true, data: Some(data), error: None, request_id },
        Err(error) => RspView {
            success: false,
            data: None,
            error: Some(error.message()),
            request_id,
        },
    }
}

/// How a command ended, as far as its sender is told.
pub open spec fn told(reply: ReplyView) -> OutcomeView {
    match reply {
        ReplyView::Ended(outcome) => outcome,
        _ => Err(ErrorView::WorkerDropped),
    }
}

/// What is published for a command, in order: nothing where it was not delivered; else the
/// response, and before it the result of a scan that succeeded.
pub open spec fn conclusion(
    topic_rsp: Seq<char>,
    topic_discovered: Seq<char>,
    ticket: Ticket,
    reply: ReplyView,
) -> Seq<PublicationView> {
    let outcome = told(reply);
    let answer = response_publication(
        topic_rsp,
        response(command::text_of(ticket.request_id), outcome),
    );
    if reply is Undelivered {
        Seq::empty()
    } else if ticket.is_scan && outcome is Ok {
        seq![discovery(topic_discovered, outcome->Ok_0.json()), answer]
    } else {
        seq![answer]
    }
}

/// What is published for the scan at start-up: its result, if it succeeded.
pub open spec fn startup_report(topic_discovered: Seq<char>, reply: ReplyView) -> Option<
    PublicationView,
> {
    match reply {
        ReplyView::Ended(Ok(data)) => Some(discovery(topic_discovered, data.json())),
        _ => None,
    }
}

/// The message that carries a response.
pub fn publish_rsp(topic: &str, rsp: &Rsp) -> (publication: Publication)
    ensures
        publication@ == response_publication(topic@, rsp@),
{
    Publication { topic: topic.to_string(), retain: false, body: rsp.to_json() }
}

/// What is done when the broker has accepted the connection: the command topic is subscribed to,
/// the bridge says that it is there, and a scan is started if one is wanted.
pub fn connected(config: &Config) -> (plan: Connected)
    ensures
        plan.subscribe@ == config.topic_cmd@,
        plan.status@ == (PublicationView {
            topic: config.topic_status@,
            retain: true,
            body: status_json(config.serial_port@, config.baud_rate),
        }),
        match plan.scan {
            Some(cmd) => {
                &&& config.scan_on_startup
                &&& config.scanned_by(cmd)
                &&& command::text_of(cmd.tag()) == Some("startup-scan"@)
                &&& match cmd {
                    Cmd::ScanBus { baud_rates, slave_id_start, slave_id_end, request_id } => {
                        &&& baud_rates@ == config.scan_baud_rates@
                        &&& slave_id_start == config.scan_slave_start
                        &&& slave_id_end == config.scan_slave_end
                        &&& match request_id {
                            Some(tag) => tag@ == "startup-scan"@,
                            None => false,
                        }
                    },
                    _ => false,
                }
            },
            None => !config.scan_on_startup,
        },
{
    let mut members: Vec<(String, Json)> = Vec::new();
    put(&mut members, "baud_rate", Json::Number(config.baud_rate as u64));
    put(&mut members, "serial_port", text(config.serial_port.as_str()));
    put(&mut members, "status", text("online"));
    assert(json::member_views(members@) =~= status_json(
        config.serial_port@,
        config.baud_rate,
    )->Object_0);
    let status = Publication {
        topic: config.topic_status.clone(),
        retain: true,
        body: object(members),
    };
    let scan: Option<Cmd> = if config.scan_on_startup {
        Some(config.scan_command(None, None, None, Some("startup-scan".to_string())))
    } else {
        None
    };
    Connected { subscribe: config.topic_cmd.clone(), status, scan }
}

/// What is published for the scan at start-up: its result, if it succeeded.
pub fn report_startup_scan(config: &Config, reply: &Reply) -> (publication: Option<Publication>)
    ensures
        match publication {
            Some(publication) => startup_report(config.topic_discovered@, reply@) == Some(
                publication@,
            ),
            None => startup_report(config.topic_discovered@, reply@) is None,
        },
{
    match reply {
        Reply::Ended(Ok(data)) => Some(
            Publication {
                topic: config.topic_discovered.clone(),
                retain: true,
                body: data.to_json(),
            },
        ),
        _ => None,
    }
}

/// Decides on a message on the command topic, which was decoded into a command or into the
/// reason why it is none.
pub fn receive(config: &Config, decoded: Result<Cmd, String>) -> (admission: Admission)
    ensures
        match decoded {
            Ok(cmd) => match admission {
                Admission::Forward(forwarded, ticket) => {
                    &&& forwarded == cmd
                    &&& ticket.is_scan == (cmd is ScanBus)
                    &&& command::text_of(ticket.request_id) == command::text_of(cmd.tag())
                },
                Admission::Refuse(_) => false,
            },
            Err(reason) => match admission {
                Admission::Refuse(publication) => publication@ == response_publication(
                    config.topic_rsp@,
                    refusal(reason@),
                ),
                Admission::Forward(_, _) => false,
            },
        },
{
    match decoded {
        Ok(cmd) => {
            let request_id: Option<String> = match cmd.request_id() {
                Some(id) => Some(id.to_string()),
                None => None,
            };
            let ticket = Ticket { is_scan: cmd.is_scan(), request_id };
            Admission::Forward(cmd, ticket)
        },
        Err(reason) => {
            let rsp = Rsp {
                success: false,
                data: None,
                error: Some("parse error: ".to_string().concat(reason.as_str())),
                request_id: None,
            };
            Admission::Refuse(publish_rsp(config.topic_rsp.as_str(), &rsp))
        },
    }
}

/// Decides what is published for a command, in order.
pub fn conclude(config: &Config, ticket: Ticket, reply: Reply) -> (publications: Vec<Publication>)
    ensures
        publication_views(publications@) == conclusion(
            config.topic_rsp@,
            config.topic_discovered@,
            ticket,
            reply@,
        ),
{
    let ghost told_of = told(reply@);
    let mut publications: Vec<Publication> = Vec::new();
    let outcome: Outcome = match reply {
        Reply::Undelivered => {
            assert(publication_views(publications@) =~= Seq::<PublicationView>::empty());
            return publications;
        },
        Reply::Dropped => Err(Error::WorkerDropped),
        Reply::Ended(outcome) => outcome,
    };
    assert(data::outcome_view(outcome) == told_of);
    let rsp: Rsp = match outcome {
        Ok(data) => {
            if ticket.is_scan {
                publications.push(
                    Publication {
                        topic: config.topic_discovered.clone(),
                        retain: true,
                        body: data.to_json(),
                    },
                );
            }
            Rsp { success: true, data: Some(data), error: None, request_id: ticket.request_id }
        },
        Err(error) => Rsp {
            success: false,
            data: None,
            error: Some(error.message()),
            request_id: ticket.request_id,
        },
    };
    assert(rsp@ == response(command::text_of(ticket.request_id), told_of));
    publications.push(publish_rsp(config.topic_rsp.as_str(), &rsp));
    assert(publication_views(publications@) =~= conclusion(
        config.topic_rsp@,
        config.topic_discovered@,
        ticket,
        reply@,
    ));
    publications
}

} // verus!
