//! Carrying out the commands that queue up while a scan is under way.

use crate::command::Cmd;
use crate::data;
use crate::data::{Outcome, OutcomeView};
use crate::error::{Error, ErrorView};
use crate::exchange::{run_cmd, Exchange, ExchangeNext, ExchangeNextView, ExchangeView};
use crate::port::{Action, ActionView, Event, EventView, Requester};
use vstd::prelude::*;

verus! {

/// How far the work on the queue has come.
#[derive(Debug)]
pub enum ServicePhase {
    /// The queue is to be looked into.
    Poll,
    /// The normal baud rate is to be set for this command.
    SetBaud(Cmd),
    /// The normal timeout is to be set for this command.
    SetTimeout(Cmd),
    /// Bytes left over from the scan are to be dropped before this command.
    Clear(Cmd),
    /// This command is under way.
    Run(Exchange),
    /// This is to be handed over.
    Answer(Outcome),
}

/// Work on the commands that queued up during a scan.
///
/// The port is put back to its normal settings before each command, and left with them: whoever
/// goes on with the scan has to set it up again.
#[derive(Debug)]
pub struct Service {
    pub normal_baud: u32,
    pub normal_timeout: u64,
    pub phase: ServicePhase,
}

/// What the work on the queue has come to.
#[derive(Debug)]
pub enum ServiceNext {
    Running(Service),
    /// The queue is empty.
    Finished,
    Aborted,
}

/// The mathematical content of a [`ServicePhase`].
pub enum ServicePhaseView {
    Poll,
    SetBaud(Cmd),
    SetTimeout(Cmd),
    Clear(Cmd),
    Run(ExchangeView),
    Answer(OutcomeView),
}

/// The mathematical content of a [`Service`].
pub struct ServiceView {
    pub normal_baud: u32,
    pub normal_timeout: u64,
    pub phase: ServicePhaseView,
}

/// The mathematical content of a [`ServiceNext`].
pub enum ServiceNextView {
    Running(ServiceView),
    Finished,
    Aborted,
}

impl View for Service {
    type V = ServiceView;

    open spec fn view(&self) -> ServiceView {
        ServiceView {
            normal_baud: self.normal_baud,
            normal_timeout: self.normal_timeout,
            phase: match self.phase {
                ServicePhase::Poll => ServicePhaseView::Poll,
                ServicePhase::SetBaud(cmd) => ServicePhaseView::SetBaud(cmd),
                ServicePhase::SetTimeout(cmd) => ServicePhaseView::SetTimeout(cmd),
                ServicePhase::Clear(cmd) => ServicePhaseView::Clear(cmd),
                ServicePhase::Run(exchange) => ServicePhaseView::Run(exchange@),
                ServicePhase::Answer(outcome) => ServicePhaseView::Answer(
                    data::outcome_view(outcome),
                ),
            },
        }
    }
}

impl View for ServiceNext {
    type V = ServiceNextView;

    open spec fn view(&self) -> ServiceNextView {
        match *self {
            ServiceNext::Running(service) => ServiceNextView::Running(service@),
            ServiceNext::Finished => ServiceNextView::Finished,
            ServiceNext::Aborted => ServiceNextView::Aborted,
        }
    }
}

impl ServiceView {
    /// The queue about to be looked into.
    pub open spec fn start(normal_baud: u32, normal_timeout: u64) -> ServiceView {
        ServiceView { normal_baud, normal_timeout, phase: ServicePhaseView::Poll }
    }

    /// The same work in another phase.
    pub open spec fn at(self, phase: ServicePhaseView) -> ServiceNextView {
        ServiceNextView::Running(ServiceView { phase, ..self })
    }

    /// What is to be done next.
    pub open spec fn action(self) -> ActionView {
        match self.phase {
            ServicePhaseView::Poll => ActionView::TryReceive,
            ServicePhaseView::SetBaud(_) => ActionView::SetBaudRate(self.normal_baud),
            ServicePhaseView::SetTimeout(_) => ActionView::SetTimeout(self.normal_timeout),
            ServicePhaseView::Clear(_) => ActionView::ClearAll,
            ServicePhaseView::Run(exchange) => exchange.action(),
            ServicePhaseView::Answer(outcome) => ActionView::Reply(
                Requester::Interleaved,
                outcome,
            ),
        }
    }

    /// What the work comes to when the pending action is answered by `event`.
    pub open spec fn next(self, event: EventView) -> ServiceNextView {
        match self.phase {
            ServicePhaseView::Poll => match event {
                EventView::Command(cmd) => if cmd is ScanBus {
                    self.at(ServicePhaseView::Answer(Err(ErrorView::ScanInProgress)))
                } else {
                    self.at(ServicePhaseView::SetBaud(cmd))
                },
                _ => ServiceNextView::Finished,
            },
            ServicePhaseView::SetBaud(cmd) => self.at(ServicePhaseView::SetTimeout(cmd)),
            ServicePhaseView::SetTimeout(cmd) => self.at(ServicePhaseView::Clear(cmd)),
            ServicePhaseView::Clear(cmd) => self.at(
                ServicePhaseView::Run(ExchangeView::start(cmd)),
            ),
            ServicePhaseView::Run(exchange) => match exchange.next(event) {
                ExchangeNextView::Running(exchange) => self.at(ServicePhaseView::Run(exchange)),
                ExchangeNextView::Finished(outcome) => self.at(ServicePhaseView::Answer(outcome)),
                ExchangeNextView::Aborted => ServiceNextView::Aborted,
            },
            ServicePhaseView::Answer(_) => self.at(ServicePhaseView::Poll),
        }
    }
}

/// Starts to carry out the commands that have queued up.
pub fn service_pending_cmds(normal_baud: u32, normal_timeout: u64) -> (service: Service)
    ensures
        service@ == ServiceView::start(normal_baud, normal_timeout),
{
    Service { normal_baud, normal_timeout, phase: ServicePhase::Poll }
}

impl Service {
    /// What is to be done next.
    pub fn action(&self) -> (action: Action<'_>)
        ensures
            action@ == self@.action(),
    {
        match &self.phase {
            ServicePhase::Poll => Action::TryReceive,
            ServicePhase::SetBaud(_) => Action::SetBaudRate(self.normal_baud),
            ServicePhase::SetTimeout(_) => Action::SetTimeout(self.normal_timeout),
            ServicePhase::Clear(_) => Action::ClearAll,
            ServicePhase::Run(exchange) => exchange.action(),
            ServicePhase::Answer(outcome) => Action::Reply(Requester::Interleaved, outcome),
        }
    }

    /// Takes the answer to the pending action.
    pub fn step(self, event: Event) -> (next: ServiceNext)
        ensures
            next@ == self@.next(event@),
    {
        let Service { normal_baud, normal_timeout, phase } = self;
        let phase: ServicePhase = match phase {
            ServicePhase::Poll => match event {
                Event::Command(cmd) => if cmd.is_scan() {
                    ServicePhase::Answer(Err(Error::ScanInProgress))
                } else {
                    ServicePhase::SetBaud(cmd)
                },
                _ => return ServiceNext::Finished,
            },
            ServicePhase::SetBaud(cmd) => ServicePhase::SetTimeout(cmd),
            ServicePhase::SetTimeout(cmd) => ServicePhase::Clear(cmd),
            ServicePhase::Clear(cmd) => ServicePhase::Run(run_cmd(cmd)),
            ServicePhase::Run(exchange) => match exchange.step(event) {
                ExchangeNext::Running(exchange) => ServicePhase::Run(exchange),
                ExchangeNext::Finished(outcome) => ServicePhase::Answer(outcome),
                ExchangeNext::Aborted => return ServiceNext::Aborted,
            },
            ServicePhase::Answer(_) => ServicePhase::Poll,
        };
        ServiceNext::Running(Service { normal_baud, normal_timeout, phase })
    }
}

} // verus!
