//! The owner of the serial port: takes commands one by one and carries them out.

use crate::command::Cmd;
use crate::config::Config;
use crate::data;
use crate::data::{Data, DataView, Outcome, OutcomeView};
use crate::exchange::{run_cmd, Exchange, ExchangeNext, ExchangeNextView, ExchangeView};
use crate::port::{
    Action, ActionView, Event, EventView, PortSettings, PortSettingsView, Requester,
};
use crate::scan::{scan_bus, Scan, ScanNext, ScanNextView, ScanPlanView, ScanView};
use vstd::prelude::*;

verus! {

/// How long the worker waits before it tries again to open its port, in seconds.
pub const RETRY_SECONDS: u64 = 5;

/// What the worker is busy with.
#[derive(Debug)]
pub enum Job {
    /// It opens its port.
    Open,
    /// It waits before it tries again to open its port.
    Pause,
    /// It waits for a command.
    Idle,
    /// It carries out a command.
    Run(Exchange),
    /// It scans the bus.
    Scan(Scan),
    /// It hands over how a command ended.
    Answer(Outcome),
    /// It is done: no command will come.
    Stopped,
    /// It gave up.
    Aborted,
}

/// The owner of the serial port, with the settings at which the port is opened and works normally.
#[derive(Debug)]
pub struct Worker {
    pub settings: PortSettings,
    pub job: Job,
}

/// The mathematical content of a [`Job`].
pub enum JobView {
    Open,
    Pause,
    Idle,
    Run(ExchangeView),
    Scan(ScanView),
    Answer(OutcomeView),
    Stopped,
    Aborted,
}

/// The mathematical content of a [`Worker`].
pub struct WorkerView {
    pub settings: PortSettingsView,
    pub job: JobView,
}

impl View for Job {
    type V = JobView;

    open spec fn view(&self) -> JobView {
        match *self {
            Job::Open => JobView::Open,
            Job::Pause => JobView::Pause,
            Job::Idle => JobView::Idle,
            Job::Run(exchange) => JobView::Run(exchange@),
            Job::Scan(scan) => JobView::Scan(scan@),
            Job::Answer(outcome) => JobView::Answer(data::outcome_view(outcome)),
            Job::Stopped => JobView::Stopped,
            Job::Aborted => JobView::Aborted,
        }
    }
}

impl View for Worker {
    type V = WorkerView;

    open spec fn view(&self) -> WorkerView {
        WorkerView { settings: self.settings@, job: self.job@ }
    }
}

impl WorkerView {
    /// A worker that has no port yet.
    pub open spec fn start(settings: PortSettingsView) -> WorkerView {
        WorkerView { settings, job: JobView::Open }
    }

    /// What is to be done next.
    pub open spec fn action(self) -> ActionView {
        match self.job {
            JobView::Open => ActionView::Open(self.settings),
            JobView::Pause => ActionView::Pause(RETRY_SECONDS),
            JobView::Idle => ActionView::Receive,
            JobView::Run(exchange) => exchange.action(),
            JobView::Scan(scan) => scan.action(),
            JobView::Answer(outcome) => ActionView::Reply(Requester::Current, outcome),
            JobView::Stopped => ActionView::Stop,
            JobView::Aborted => ActionView::Abort,
        }
    }

    /// The job that a command makes.
    pub open spec fn taken(self, cmd: Cmd) -> JobView {
        match cmd {
            Cmd::ScanBus { baud_rates, slave_id_start, slave_id_end, .. } => JobView::Scan(
                ScanView::start(
                    ScanPlanView {
                        baud_rates: baud_rates@,
                        slave_id_start,
                        slave_id_end,
                        restore_baud: self.settings.baud_rate,
                        restore_timeout: self.settings.timeout_ms,
                    },
                ),
            ),
            _ => JobView::Run(ExchangeView::start(cmd)),
        }
    }

    /// The job of the worker when the pending action is answered by `event`.
    pub open spec fn next_job(self, event: EventView) -> JobView {
        match self.job {
            JobView::Open => if event is Done {
                JobView::Idle
            } else {
                JobView::Pause
            },
            JobView::Pause => JobView::Open,
            JobView::Idle => match event {
                EventView::Command(cmd) => self.taken(cmd),
                _ => JobView::Stopped,
            },
            JobView::Run(exchange) => match exchange.next(event) {
                ExchangeNextView::Running(exchange) => JobView::Run(exchange),
                ExchangeNextView::Finished(outcome) => JobView::Answer(outcome),
                ExchangeNextView::Aborted => JobView::Aborted,
            },
            JobView::Scan(scan) => match scan.next(event) {
                ScanNextView::Running(scan) => JobView::Scan(scan),
                ScanNextView::Finished(discovered) => JobView::Answer(
                    Ok(DataView::ScanResult { discovered }),
                ),
                ScanNextView::Aborted => JobView::Aborted,
            },
            JobView::Answer(_) => JobView::Idle,
            JobView::Stopped => JobView::Stopped,
            JobView::Aborted => JobView::Aborted,
        }
    }

    /// The worker when the pending action is answered by `event`.
    pub open spec fn next(self, event: EventView) -> WorkerView {
        WorkerView { job: self.next_job(event), ..self }
    }
}

/// A worker that is to open its port with the settings of the bridge.
pub fn modbus_thread(config: &Config) -> (worker: Worker)
    ensures
        worker@ == WorkerView::start(config.port()),
{
    Worker { settings: config.port_settings(), job: Job::Open }
}

impl Worker {
    /// What is to be done next.
    pub fn action(&self) -> (action: Action<'_>)
        ensures
            action@ == self@.action(),
    {
        match &self.job {
            Job::Open => Action::Open(&self.settings),
            Job::Pause => Action::Pause(RETRY_SECONDS),
            Job::Idle => Action::Receive,
            Job::Run(exchange) => exchange.action(),
            Job::Scan(scan) => scan.action(),
            Job::Answer(outcome) => Action::Reply(Requester::Current, outcome),
            Job::Stopped => Action::Stop,
            Job::Aborted => Action::Abort,
        }
    }

    /// The job that a command makes.
    fn take(settings: &PortSettings, cmd: Cmd) -> (job: Job)
        ensures
            job@ == WorkerView::start(settings@).taken(cmd),
    {
        match cmd {
            Cmd::ScanBus { baud_rates, slave_id_start, slave_id_end, .. } => Job::Scan(
                scan_bus(
                    baud_rates,
                    slave_id_start,
                    slave_id_end,
                    settings.baud_rate,
                    settings.timeout_ms,
                ),
            ),
            cmd => Job::Run(run_cmd(cmd)),
        }
    }

    /// Takes the answer to the pending action.
    pub fn step(self, event: Event) -> (worker: Worker)
        ensures
            worker@ == self@.next(event@),
    {
        let Worker { settings, job } = self;
        let job: Job = match job {
            Job::Open => if event.is_done() {
                Job::Idle
            } else {
                Job::Pause
            },
            Job::Pause => Job::Open,
            Job::Idle => match event {
                Event::Command(cmd) => Worker::take(&settings, cmd),
                _ => Job::Stopped,
            },
            Job::Run(exchange) => match exchange.step(event) {
                ExchangeNext::Running(exchange) => Job::Run(exchange),
                ExchangeNext::Finished(outcome) => Job::Answer(outcome),
                ExchangeNext::Aborted => Job::Aborted,
            },
            Job::Scan(scan) => match scan.step(event) {
                ScanNext::Running(scan) => Job::Scan(scan),
                ScanNext::Finished(discovered) => Job::Answer(Ok(Data::ScanResult { discovered })),
                ScanNext::Aborted => Job::Aborted,
            },
            Job::Answer(_) => Job::Idle,
            Job::Stopped => Job::Stopped,
            Job::Aborted => Job::Aborted,
        };
        Worker { settings, job }
    }
}

} // verus!
