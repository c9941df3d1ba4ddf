//! What holds of the worker, whatever commands come and whatever the port does.

use crate::command::Cmd;
use crate::config::Config;
use crate::data::{DataView, OutcomeView};
use crate::error::ErrorView;
use crate::exchange::{ExchangeNextView, ExchangeView};
use crate::laws::exchange;
use crate::laws::scan;
use crate::port::{
    ActionView, DataBits, EventView, Parity, PortSettingsView, Requester, StopBits,
};
use crate::scan::{ScanNextView, ScanPhaseView, ScanView, SCAN_TIMEOUT};
use crate::service::{ServicePhaseView, ServiceView};
use crate::worker::{JobView, WorkerView, RETRY_SECONDS};
use vstd::prelude::*;

verus! {

/// The worker after its actions were answered by `events`, one after the other.
pub open spec fn run(start: WorkerView, events: Seq<EventView>) -> WorkerView
    decreases events.len(),
{
    if events.len() == 0 {
        start
    } else {
        run(start, events.drop_last()).next(events.last())
    }
}

/// Settings of the port, as they were last asked for.
pub struct Tuning {
    pub baud_rate: u32,
    pub timeout_ms: u64,
}

impl Tuning {
    /// The settings after one more action.
    pub open spec fn after(self, action: ActionView) -> Tuning {
        match action {
            ActionView::Open(port) => tuned_to(port),
            ActionView::SetBaudRate(baud_rate) => Tuning { baud_rate, ..self },
            ActionView::SetTimeout(timeout_ms) => Tuning { timeout_ms, ..self },
            _ => self,
        }
    }
}

/// The settings of a port that was just opened.
pub open spec fn tuned_to(port: PortSettingsView) -> Tuning {
    Tuning { baud_rate: port.baud_rate, timeout_ms: port.timeout_ms }
}

/// The settings at which the port works normally, and at which it is opened.
pub open spec fn normal(worker: WorkerView) -> Tuning {
    tuned_to(worker.settings)
}

/// The settings of the port after the actions of a worker were answered by `events`.
pub open spec fn tuning(start: WorkerView, events: Seq<EventView>) -> Tuning
    decreases events.len(),
{
    if events.len() == 0 {
        normal(start)
    } else {
        tuning(start, events.drop_last()).after(run(start, events.drop_last()).action())
    }
}

/// Whether the worker probes for devices, that is scans and is not at work on a queued command.
pub open spec fn probing(worker: WorkerView) -> bool {
    match worker.job {
        JobView::Scan(scan) => !(scan.phase is Service),
        _ => false,
    }
}

/// Whether the settings are as a queued command needs them, as far as it has come.
spec fn serviced(service: ServiceView, set: Tuning, wanted: Tuning) -> bool {
    &&& service.normal_baud == wanted.baud_rate
    &&& service.normal_timeout == wanted.timeout_ms
    &&& match service.phase {
        ServicePhaseView::SetTimeout(cmd) => {
            &&& set.baud_rate == wanted.baud_rate
            &&& !(cmd is ScanBus)
        },
        ServicePhaseView::SetBaud(cmd) => !(cmd is ScanBus),
        ServicePhaseView::Clear(cmd) => set == wanted && !(cmd is ScanBus),
        ServicePhaseView::Run(exchange) => set == wanted && !(exchange.cmd is ScanBus)
            && sane_exchange(exchange),
        ServicePhaseView::Answer(outcome) => outcome != Err::<DataView, ErrorView>(
            ErrorView::ScanDispatched,
        ),
        ServicePhaseView::Poll => true,
    }
}

/// Whether an exchange has got no further than its request allows.
spec fn sane_exchange(exchange: ExchangeView) -> bool {
    match exchange.phase {
        crate::exchange::ExchangePhaseView::Write(sent) => crate::exchange::request_frame(
            exchange.cmd,
        ) == Ok::<Seq<u8>, ErrorView>(sent),
        _ => true,
    }
}

/// Whether the settings are as the job needs them, as far as it has come.
spec fn tuned(worker: WorkerView, set: Tuning) -> bool {
    let wanted = normal(worker);
    match worker.job {
        JobView::Scan(scan) => {
            &&& scan.plan.restore_baud == wanted.baud_rate
            &&& scan.plan.restore_timeout == wanted.timeout_ms
            &&& match scan.phase {
                ScanPhaseView::SetBaud | ScanPhaseView::ResumeBaud | ScanPhaseView::RestoreBaud =>
                    true,
                ScanPhaseView::SetTimeout | ScanPhaseView::ResumeTimeout => set.baud_rate
                    == scan.baud,
                ScanPhaseView::RestoreTimeout => set.baud_rate == wanted.baud_rate,
                ScanPhaseView::Service(service) => serviced(service, set, wanted),
                _ => set.baud_rate == scan.baud && set.timeout_ms == SCAN_TIMEOUT,
            }
        },
        JobView::Run(exchange) => set == wanted && !(exchange.cmd is ScanBus) && sane_exchange(
            exchange,
        ),
        JobView::Answer(outcome) => set == wanted && outcome != Err::<DataView, ErrorView>(
            ErrorView::ScanDispatched,
        ),
        JobView::Open | JobView::Pause | JobView::Idle | JobView::Stopped => set == wanted,
        JobView::Aborted => true,
    }
}

/// An exchange of a command other than a scan does not end as if it were one.
proof fn lemma_exchange_step(exchange: ExchangeView, event: EventView)
    requires
        !(exchange.cmd is ScanBus),
        sane_exchange(exchange),
    ensures
        match exchange.next(event) {
            ExchangeNextView::Running(next) => next.cmd == exchange.cmd && sane_exchange(next),
            ExchangeNextView::Finished(outcome) => outcome != Err::<DataView, ErrorView>(
                ErrorView::ScanDispatched,
            ),
            ExchangeNextView::Aborted => true,
        },
{
}

proof fn lemma_tuned_step(worker: WorkerView, set: Tuning, event: EventView)
    requires
        tuned(worker, set),
    ensures
        tuned(worker.next(event), set.after(worker.action())),
{
    match worker.job {
        JobView::Run(exchange) => lemma_exchange_step(exchange, event),
        JobView::Scan(scan) => match scan.phase {
            ScanPhaseView::Service(service) => match service.phase {
                ServicePhaseView::Run(exchange) => lemma_exchange_step(exchange, event),
                _ => {},
            },
            _ => {},
        },
        _ => {},
    }
}

proof fn lemma_tuned(port: PortSettingsView, events: Seq<EventView>)
    ensures
        tuned(
            run(WorkerView::start(port), events),
            tuning(WorkerView::start(port), events),
        ),
        run(WorkerView::start(port), events).settings == port,
    decreases events.len(),
{
    let start = WorkerView::start(port);
    if events.len() > 0 {
        let before = events.drop_last();
        lemma_tuned(port, before);
        lemma_tuned_step(run(start, before), tuning(start, before), events.last());
    }
}

/// Whatever happens, each frame is written at the settings it is meant for: a probe at the baud
/// rate being scanned and the scan timeout, and a command, queued during a scan or not, at the
/// normal settings.
pub proof fn law_frames_go_out_at_their_settings(
    port: PortSettingsView,
    events: Seq<EventView>,
)
    requires
        run(WorkerView::start(port), events).action() is Write,
    ensures
        ({
            let worker = run(WorkerView::start(port), events);
            let set = tuning(WorkerView::start(port), events);
            if probing(worker) {
                set == (Tuning { baud_rate: worker.job->Scan_0.baud, timeout_ms: SCAN_TIMEOUT })
            } else {
                set == tuned_to(port)
            }
        }),
{
    lemma_tuned(port, events);
}

/// Whenever the worker waits for a command, the port is at its normal settings.
pub proof fn law_idle_port_is_normal(port: PortSettingsView, events: Seq<EventView>)
    requires
        run(WorkerView::start(port), events).action() is Receive,
    ensures
        tuning(WorkerView::start(port), events) == tuned_to(port),
{
    lemma_tuned(port, events);
}

/// A scan is never taken for a command to a single device.
pub proof fn law_scans_are_not_dispatched(
    port: PortSettingsView,
    events: Seq<EventView>,
    to: Requester,
    outcome: OutcomeView,
)
    requires
        run(WorkerView::start(port), events).action() == ActionView::Reply(
            to,
            outcome,
        ),
    ensures
        outcome != Err::<DataView, ErrorView>(ErrorView::ScanDispatched),
{
    lemma_tuned(port, events);
}

/// Whether a command comes in from `from` when the pending action is answered by `event`.
pub open spec fn takes(worker: WorkerView, event: EventView, from: Requester) -> bool {
    &&& event is Command
    &&& match from {
        Requester::Current => worker.action() is Receive,
        Requester::Interleaved => worker.action() is TryReceive,
    }
}

/// Whether the worker is about to answer `to`.
pub open spec fn gives(worker: WorkerView, to: Requester) -> bool {
    match worker.action() {
        ActionView::Reply(whom, _) => whom == to,
        _ => false,
    }
}

/// How many commands have come in from `from`.
pub open spec fn taken(start: WorkerView, events: Seq<EventView>, from: Requester) -> nat
    decreases events.len(),
{
    if events.len() == 0 {
        0
    } else {
        taken(start, events.drop_last(), from) + if takes(
            run(start, events.drop_last()),
            events.last(),
            from,
        ) {
            1nat
        } else {
            0
        }
    }
}

/// How many answers have gone out to `to`.
pub open spec fn given(start: WorkerView, events: Seq<EventView>, to: Requester) -> nat
    decreases events.len(),
{
    if events.len() == 0 {
        0
    } else {
        given(start, events.drop_last(), to) + if gives(run(start, events.drop_last()), to) {
            1nat
        } else {
            0
        }
    }
}

/// How many answers the worker still owes to `to`.
pub open spec fn owed(worker: WorkerView, to: Requester) -> nat {
    match to {
        Requester::Current => match worker.job {
            JobView::Run(_) | JobView::Scan(_) | JobView::Answer(_) => 1,
            _ => 0,
        },
        Requester::Interleaved => match worker.job {
            JobView::Scan(scan) => match scan.phase {
                ScanPhaseView::Service(service) => if service.phase is Poll {
                    0
                } else {
                    1
                },
                _ => 0,
            },
            _ => 0,
        },
    }
}

/// Every command that came in has been answered exactly once, but for the one that is being
/// carried out and, during a scan, one that is carried out in between.
pub proof fn law_every_command_is_answered_once(
    port: PortSettingsView,
    events: Seq<EventView>,
    whom: Requester,
)
    requires
        !(run(WorkerView::start(port), events).job is Aborted),
    ensures
        ({
            let start = WorkerView::start(port);
            taken(start, events, whom) == given(start, events, whom) + owed(
                run(start, events),
                whom,
            )
        }),
        owed(run(WorkerView::start(port), events), whom) <= 1,
    decreases events.len(),
{
    let start = WorkerView::start(port);
    if events.len() > 0 {
        law_every_command_is_answered_once(port, events.drop_last(), whom);
    }
}

/// A scan that is asked for during a scan is refused at once: the next thing that happens is the
/// answer, and then the scan goes on as if nothing had come.
pub proof fn law_second_scan_is_refused(
    worker: WorkerView,
    scan: ScanView,
    service: ServiceView,
    cmd: Cmd,
    sent: EventView,
)
    requires
        worker.job == JobView::Scan(scan),
        scan.phase == ScanPhaseView::Service(service),
        service.phase is Poll,
        cmd is ScanBus,
    ensures
        worker.next(EventView::Command(cmd)).action() == ActionView::Reply(
            Requester::Interleaved,
            Err(ErrorView::ScanInProgress),
        ),
        worker.next(EventView::Command(cmd)).next(sent) == worker,
{
}

/// A worker that carries out a command is where the command is.
proof fn lemma_run_follows(
    worker: WorkerView,
    exchange: ExchangeView,
    events: Seq<EventView>,
)
    requires
        worker.job == JobView::Run(exchange),
        events.len() > 0 ==> exchange::run(exchange, events.drop_last()) is Running,
    ensures
        run(worker, events) == (WorkerView {
            job: match exchange::run(exchange, events) {
                ExchangeNextView::Running(next) => JobView::Run(next),
                ExchangeNextView::Finished(outcome) => JobView::Answer(outcome),
                ExchangeNextView::Aborted => JobView::Aborted,
            },
            ..worker
        }),
    decreases events.len(),
{
    if events.len() > 0 {
        let before = events.drop_last();
        if before.len() > 0 {
            assert(exchange::run(exchange, before.drop_last()) is Running);
        }
        lemma_run_follows(worker, exchange, before);
    }
}

/// Taking one more event at the front.
proof fn lemma_run_from(worker: WorkerView, first: EventView, events: Seq<EventView>)
    ensures
        run(worker, seq![first] + events) == run(worker.next(first), events),
    decreases events.len(),
{
    let all = seq![first] + events;
    if events.len() == 0 {
        assert(all.drop_last() =~= Seq::<EventView>::empty());
        assert(run(worker, all.drop_last()) == worker);
    } else {
        assert(all.drop_last() =~= seq![first] + events.drop_last());
        lemma_run_from(worker, first, events.drop_last());
    }
}

/// The answer to a command to a single device is how that command ended.
pub proof fn law_answer_is_the_outcome(
    worker: WorkerView,
    cmd: Cmd,
    events: Seq<EventView>,
    outcome: OutcomeView,
)
    requires
        worker.job is Idle,
        !(cmd is ScanBus),
        events.len() > 0,
        exchange::run(ExchangeView::start(cmd), events.drop_last()) is Running,
        exchange::run(ExchangeView::start(cmd), events) == ExchangeNextView::Finished(outcome),
    ensures
        run(worker, seq![EventView::Command(cmd)] + events).action() == ActionView::Reply(
            Requester::Current,
            outcome,
        ),
{
    lemma_run_from(worker, EventView::Command(cmd), events);
    lemma_run_follows(worker.next(EventView::Command(cmd)), ExchangeView::start(cmd), events);
}

/// A worker that scans is where the scan is.
proof fn lemma_scan_follows(worker: WorkerView, start: ScanView, events: Seq<EventView>)
    requires
        worker.job == JobView::Scan(start),
        events.len() > 0 ==> scan::run(start, events.drop_last()) is Running,
    ensures
        run(worker, events) == (WorkerView {
            job: match scan::run(start, events) {
                ScanNextView::Running(next) => JobView::Scan(next),
                ScanNextView::Finished(discovered) => JobView::Answer(
                    Ok(DataView::ScanResult { discovered }),
                ),
                ScanNextView::Aborted => JobView::Aborted,
            },
            ..worker
        }),
    decreases events.len(),
{
    if events.len() > 0 {
        let before = events.drop_last();
        if before.len() > 0 {
            assert(scan::run(start, before.drop_last()) is Running);
        }
        lemma_scan_follows(worker, start, before);
    }
}

/// The answer to a scan is what the scan found.
pub proof fn law_answer_is_the_scan_result(
    worker: WorkerView,
    cmd: Cmd,
    events: Seq<EventView>,
    discovered: Seq<crate::data::Device>,
)
    requires
        worker.job is Idle,
        cmd is ScanBus,
        events.len() > 0,
        scan::run(worker.taken(cmd)->Scan_0, events.drop_last()) is Running,
        scan::run(worker.taken(cmd)->Scan_0, events) == ScanNextView::Finished(discovered),
    ensures
        run(worker, seq![EventView::Command(cmd)] + events).action() == ActionView::Reply(
            Requester::Current,
            Ok(DataView::ScanResult { discovered }),
        ),
{
    lemma_run_from(worker, EventView::Command(cmd), events);
    lemma_scan_follows(worker.next(EventView::Command(cmd)), worker.taken(cmd)->Scan_0, events);
}

/// The job of a scan that is at work on the queue.
spec fn busy(scan: ScanView, service: ServiceView, phase: ServicePhaseView) -> JobView {
    JobView::Scan(scan.at(ScanPhaseView::Service(ServiceView { phase, ..service })))
}

/// One step of a worker that carries out a queued command.
proof fn lemma_service_step(
    worker: WorkerView,
    scan: ScanView,
    service: ServiceView,
    exchange: ExchangeView,
    event: EventView,
)
    requires
        worker.job == busy(scan, service, ServicePhaseView::Run(exchange)),
    ensures
        worker.next(event).job == match exchange.next(event) {
            ExchangeNextView::Running(next) => busy(scan, service, ServicePhaseView::Run(next)),
            ExchangeNextView::Finished(outcome) => busy(
                scan,
                service,
                ServicePhaseView::Answer(outcome),
            ),
            ExchangeNextView::Aborted => JobView::Aborted,
        },
{
}

/// A worker that carries out a queued command during a scan is where the command is.
proof fn lemma_service_follows(
    worker: WorkerView,
    scan: ScanView,
    service: ServiceView,
    exchange: ExchangeView,
    events: Seq<EventView>,
)
    requires
        worker.job == busy(scan, service, ServicePhaseView::Run(exchange)),
        events.len() > 0 ==> exchange::run(exchange, events.drop_last()) is Running,
    ensures
        run(worker, events) == (WorkerView {
            job: match exchange::run(exchange, events) {
                ExchangeNextView::Running(next) => busy(scan, service, ServicePhaseView::Run(next)),
                ExchangeNextView::Finished(outcome) => busy(
                    scan,
                    service,
                    ServicePhaseView::Answer(outcome),
                ),
                ExchangeNextView::Aborted => JobView::Aborted,
            },
            ..worker
        }),
    decreases events.len(),
{
    if events.len() > 0 {
        let before = events.drop_last();
        if before.len() > 0 {
            assert(exchange::run(exchange, before.drop_last()) is Running);
        }
        lemma_service_follows(worker, scan, service, exchange, before);
        lemma_service_step(
            run(worker, before),
            scan,
            service,
            exchange::run(exchange, before)->Running_0,
            events.last(),
        );
    }
}

/// A command that is taken from the queue is carried out when the port is set for it.
proof fn lemma_service_starts(
    worker: WorkerView,
    scan: ScanView,
    service: ServiceView,
    cmd: Cmd,
    rate_set: EventView,
    timeout_set: EventView,
    cleared: EventView,
)
    requires
        worker.job == JobView::Scan(scan),
        scan.phase == ScanPhaseView::Service(service),
        service.phase is Poll,
        !(cmd is ScanBus),
    ensures
        ({
            let taken = worker.next(EventView::Command(cmd));
            let running = taken.next(rate_set).next(timeout_set).next(cleared);
            &&& taken.action() == ActionView::SetBaudRate(service.normal_baud)
            &&& taken.next(rate_set).action() == ActionView::SetTimeout(service.normal_timeout)
            &&& taken.next(rate_set).next(timeout_set).action() == ActionView::ClearAll
            &&& running == (WorkerView {
                job: busy(scan, service, ServicePhaseView::Run(ExchangeView::start(cmd))),
                ..worker
            })
        }),
{
    let taken = worker.next(EventView::Command(cmd));
    assert(taken.job == busy(scan, service, ServicePhaseView::SetBaud(cmd)));
    assert(taken.next(rate_set).job == busy(scan, service, ServicePhaseView::SetTimeout(cmd)));
    assert(taken.next(rate_set).next(timeout_set).job == busy(
        scan,
        service,
        ServicePhaseView::Clear(cmd),
    ));
}

/// The answer to a command that is taken from the queue during a scan is how that command ended.
/// The command is carried out once the normal baud rate and the normal timeout are set and the
/// line is cleared; when it is answered, the scan goes on as if nothing had come.
#[verifier::rlimit(40)]
pub proof fn law_queued_answer_is_the_outcome(
    worker: WorkerView,
    scan: ScanView,
    service: ServiceView,
    cmd: Cmd,
    rate_set: EventView,
    timeout_set: EventView,
    cleared: EventView,
    events: Seq<EventView>,
    outcome: OutcomeView,
    sent: EventView,
)
    requires
        worker.job == JobView::Scan(scan),
        scan.phase == ScanPhaseView::Service(service),
        service.phase is Poll,
        !(cmd is ScanBus),
        events.len() > 0,
        exchange::run(ExchangeView::start(cmd), events.drop_last()) is Running,
        exchange::run(ExchangeView::start(cmd), events) == ExchangeNextView::Finished(outcome),
    ensures
        ({
            let taken = worker.next(EventView::Command(cmd));
            let answering = run(taken, seq![rate_set, timeout_set, cleared] + events);
            &&& taken.action() == ActionView::SetBaudRate(service.normal_baud)
            &&& taken.next(rate_set).action() == ActionView::SetTimeout(service.normal_timeout)
            &&& taken.next(rate_set).next(timeout_set).action() == ActionView::ClearAll
            &&& answering.action() == ActionView::Reply(Requester::Interleaved, outcome)
            &&& answering.next(sent) == worker
        }),
{
    let taken = worker.next(EventView::Command(cmd));
    let running = taken.next(rate_set).next(timeout_set).next(cleared);
    lemma_service_starts(worker, scan, service, cmd, rate_set, timeout_set, cleared);
    let all = seq![rate_set, timeout_set, cleared] + events;
    assert(run(taken, all) == run(running, events)) by {
        lemma_run_from(taken, rate_set, seq![timeout_set, cleared] + events);
        lemma_run_from(taken.next(rate_set), timeout_set, seq![cleared] + events);
        lemma_run_from(taken.next(rate_set).next(timeout_set), cleared, events);
        assert(all =~= seq![rate_set] + (seq![timeout_set, cleared] + events));
        assert(seq![timeout_set, cleared] + events =~= seq![timeout_set] + (seq![cleared]
            + events));
    }
    lemma_service_follows(running, scan, service, ExchangeView::start(cmd), events);
    let answering = run(taken, all);
    assert(answering.job == busy(scan, service, ServicePhaseView::Answer(outcome)));
    assert(answering.next(sent).job == busy(scan, service, ServicePhaseView::Poll));
    assert(busy(scan, service, ServicePhaseView::Poll) == worker.job);
}

/// Every attempt to open a port is for the port in the settings, with eight data bits, no parity
/// and one stop bit, at the baud rate and with the timeout in the settings.
pub proof fn law_only_the_set_port_is_opened(
    config: Config,
    events: Seq<EventView>,
    opened: PortSettingsView,
)
    requires
        run(WorkerView::start(config.port()), events).action() == ActionView::Open(opened),
    ensures
        opened.path == config.serial_port@,
        opened.baud_rate == config.baud_rate,
        opened.data_bits == DataBits::Eight,
        opened.parity == Parity::Absent,
        opened.stop_bits == StopBits::One,
        opened.timeout_ms == config.timeout_ms,
{
    lemma_tuned(config.port(), events);
}

/// How many attempts to open a port were made.
pub open spec fn attempts(start: WorkerView, events: Seq<EventView>) -> nat
    decreases events.len(),
{
    if events.len() == 0 {
        0
    } else {
        attempts(start, events.drop_last()) + if run(
            start,
            events.drop_last(),
        ).action() is Open {
            1nat
        } else {
            0
        }
    }
}

/// Whether these are the answers to attempts to open the port that all failed, each but the last
/// followed by the answer to a pause.
pub open spec fn all_failed(events: Seq<EventView>) -> bool {
    forall|i: int| 0 <= i < events.len() && i % 2 == 0 ==> !(#[trigger] events[i] is Done)
}

proof fn lemma_failures(port: PortSettingsView, events: Seq<EventView>)
    requires
        all_failed(events),
    ensures
        run(WorkerView::start(port), events) == (WorkerView {
            settings: port,
            job: if events.len() % 2 == 0 {
                JobView::Open
            } else {
                JobView::Pause
            },
        }),
        attempts(WorkerView::start(port), events) == (events.len() + 1) / 2,
        taken(WorkerView::start(port), events, Requester::Current) == 0,
        taken(WorkerView::start(port), events, Requester::Interleaved) == 0,
    decreases events.len(),
{
    if events.len() > 0 {
        let before = events.drop_last();
        assert forall|i: int| 0 <= i < before.len() && i % 2 == 0 implies !(
        #[trigger] before[i] is Done) by {
            assert(before[i] == events[i]);
        }
        lemma_failures(port, before);
        assert(events.last() == events[events.len() - 1]);
    }
}

/// The worker tries to open its port until that works, with a pause after each failure, and takes
/// no command before. When `failures` attempts failed and the next one succeeds, there was that
/// one attempt more, and the worker waits for its first command.
pub proof fn law_open_is_retried(port: PortSettingsView, events: Seq<EventView>, failures: nat)
    requires
        all_failed(events),
    ensures
        ({
            let start = WorkerView::start(port);
            let worker = run(start, events);
            if events.len() % 2 == 0 {
                worker.action() == ActionView::Open(port)
            } else {
                worker.action() == ActionView::Pause(RETRY_SECONDS)
            }
        }),
        events.len() == 2 * failures ==> ({
            let start = WorkerView::start(port);
            let opened = events.push(EventView::Done);
            &&& attempts(start, opened) == failures + 1
            &&& taken(start, opened, Requester::Current) == 0
            &&& taken(start, opened, Requester::Interleaved) == 0
            &&& run(start, opened).action() is Receive
        }),
{
    lemma_failures(port, events);
    assert(events.push(EventView::Done).drop_last() =~= events);
}

} // verus!
