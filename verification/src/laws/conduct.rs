//! How the serial side goes about its work, told from the actions that it takes.

use crate::command::Cmd;
use crate::data::{DataView, OutcomeView};
use crate::error::ErrorView;
use crate::exchange::{ExchangeNextView, ExchangeView};
use crate::laws::bus;
use crate::laws::device;
use crate::laws::probe;
use crate::laws::scan;
use crate::laws::worker;
use crate::port::{ActionView, EventView, PortSettingsView, Requester};
use crate::probe::{CapabilityNextView, CapabilityProbeView, ProbeNextView, ProbeView, Survey};
use crate::response::{RtuNextView, RtuRead};
use crate::scan::{ScanNextView, ScanPhaseView, ScanPlanView, ScanView};
use crate::service::ServicePhaseView;
use crate::worker::{JobView, WorkerView};
use vstd::prelude::*;

verus! {

/// The line is cleared right before anything is written.
pub proof fn law_cleared_before_each_write(port: PortSettingsView, events: Seq<EventView>)
    requires
        worker::run(WorkerView::start(port), events).action() is Write,
    ensures
        events.len() > 0,
        worker::run(WorkerView::start(port), events.drop_last()).action() == ActionView::ClearAll,
{
    let before = worker::run(WorkerView::start(port), events.drop_last());
    assert(events.len() > 0);
    assert(worker::run(WorkerView::start(port), events) == before.next(events.last()));
}

/// What was written is made to leave before anything else is done, and then the first three bytes
/// of the answer are read.
pub proof fn law_flushed_and_read_after_each_write(
    worker: WorkerView,
    written: EventView,
    flushed: EventView,
)
    requires
        worker.action() is Write,
        written is Done,
    ensures
        worker.next(written).action() == ActionView::Flush,
        worker.next(written).next(flushed).action() == ActionView::Read(3),
{
}

/// The worker stops if and only if no command comes any more, and then for good.
pub proof fn law_stops_when_no_command_comes(worker: WorkerView, event: EventView)
    ensures
        worker.action() is Receive && !(event is Command) ==> worker.next(event).action() is Stop,
        worker.action() is Receive && event is Command ==> !(worker.next(event).action() is Stop),
        worker.action() is Stop ==> worker.next(event).action() is Stop,
        worker.next(event).action() is Stop ==> worker.action() is Receive || worker.action() is Stop,
{
}

/// Probes for devices are given 300 milliseconds to be answered.
pub proof fn law_probes_have_300_milliseconds(port: PortSettingsView, events: Seq<EventView>)
    requires
        worker::run(WorkerView::start(port), events).action() is Write,
        worker::probing(worker::run(WorkerView::start(port), events)),
    ensures
        worker::tuning(WorkerView::start(port), events).timeout_ms == 300,
{
    worker::law_frames_go_out_at_their_settings(port, events);
}

/// Whether these bytes ask for `count` items from address 0.
pub open spec fn inquires(sent: Seq<u8>, slave_id: u8, func: u8, count: u16) -> bool {
    &&& sent.len() == 8
    &&& sent[0] == slave_id
    &&& sent[1] == func
    &&& device::pair(sent, 2) == 0
    &&& device::pair(sent, 4) == count
    &&& device::checked(sent)
}

/// A probe clears the line and asks the device for what it is to probe for.
pub proof fn law_probe_asks(slave_id: u8, func: u8, count: u16, cleared: EventView)
    requires
        1 <= func <= 4,
    ensures
        ProbeView::start(slave_id, func, count).action() == ActionView::ClearAll,
        match probe::run(ProbeView::start(slave_id, func, count), seq![cleared]) {
            ProbeNextView::Running(next) => match next.action() {
                ActionView::Write(sent) => inquires(sent, slave_id, func, count),
                _ => false,
            },
            _ => false,
        },
{
    reveal_with_fuel(probe::run, 2);
    let sent = crate::probe::probe_frame(slave_id, func, count)->0;
    assert(sent.take(sent.len() - 2) =~= crate::frame::word_request(slave_id, func, 0, count));
}

/// A survey asks the same device for eight coils, eight discrete inputs, four holding registers and
/// four input registers, in this order.
pub proof fn law_survey_asks(slave_id: u8, kind: Survey, cleared: EventView)
    ensures
        match probe::survey(CapabilityProbeView::at(slave_id, kind), seq![cleared]) {
            CapabilityNextView::Running(next) => match next.action() {
                ActionView::Write(sent) => match kind {
                    Survey::Coils => inquires(sent, slave_id, 1, 8),
                    Survey::DiscreteInputs { .. } => inquires(sent, slave_id, 2, 8),
                    Survey::HoldingRegisters { .. } => inquires(sent, slave_id, 3, 4),
                    Survey::InputRegisters { .. } => inquires(sent, slave_id, 4, 4),
                },
                _ => false,
            },
            _ => false,
        },
        CapabilityProbeView::start(slave_id) == CapabilityProbeView::at(slave_id, Survey::Coils),
{
    reveal_with_fuel(probe::survey, 2);
    reveal_with_fuel(probe::run, 2);
    let start = CapabilityProbeView::at(slave_id, kind);
    law_probe_asks(slave_id, start.probe.func, start.probe.count, cleared);
}

/// How one answer is read off the line: three bytes, and then as many as those call for. What comes
/// out is all of these bytes, or why there is no answer with the function that is wanted.
pub proof fn law_answer_is_read_off_the_line(
    wanted: u8,
    first: EventView,
    rest: EventView,
)
    ensures
        (RtuRead::Header { expected_func: wanted }).len() == 3,
        match (RtuRead::Header { expected_func: wanted }).next(first) {
            RtuNextView::Finished(Ok(_)) => false,
            RtuNextView::Finished(Err(error)) => match device::bytes_of(first, 3) {
                None => error == ErrorView::ReadHeader,
                Some(head) => {
                    &&& head[1] < 128
                    &&& if head[1] != wanted {
                        error == (ErrorView::UnexpectedFunction { got: head[1], expected: wanted })
                    } else {
                        &&& error == (ErrorView::UnknownFunction { func: wanted })
                        &&& !(1 <= wanted <= 6 || wanted == 15 || wanted == 16)
                    }
                },
            },
            RtuNextView::Running(read) => match device::bytes_of(first, 3) {
                None => false,
                Some(head) => {
                    &&& read.len() == device::rest_len(head)
                    &&& if head[1] >= 128 {
                        read.next(rest) == RtuNextView::Finished(
                            Err(
                                ErrorView::Exception {
                                    func: (head[1] - 128) as u8,
                                    code: head[2],
                                },
                            ),
                        )
                    } else {
                        &&& head[1] == wanted
                        &&& 1 <= wanted <= 6 || wanted == 15 || wanted == 16
                        &&& read.next(rest) == match device::bytes_of(
                            rest,
                            device::rest_len(head),
                        ) {
                            Some(tail) => RtuNextView::Finished(Ok(head + tail)),
                            None => RtuNextView::Finished(Err(ErrorView::ReadBody)),
                        }
                    }
                },
            },
        },
{
    if let Some(head) = device::bytes_of(first, 3) {
        if let Some(tail) = device::bytes_of(rest, device::rest_len(head)) {
            assert(crate::response::Header::of(head).bytes() =~= head);
        }
    }
}

/// How often the queue was found empty.
pub open spec fn polls(start: ScanView, events: Seq<EventView>) -> nat
    decreases events.len(),
{
    if events.len() == 0 {
        0
    } else {
        polls(start, events.drop_last()) + match scan::run(start, events.drop_last()) {
            ScanNextView::Running(now) => if now.action() is TryReceive && !(events.last()
                is Command) {
                1nat
            } else {
                0
            },
            _ => 0,
        }
    }
}

/// How often a slave id was probed for a device.
pub open spec fn probes(start: ScanView, events: Seq<EventView>) -> nat
    decreases events.len(),
{
    if events.len() == 0 {
        0
    } else {
        probes(start, events.drop_last()) + match scan::run(start, events.drop_last()) {
            ScanNextView::Running(now) => if now.phase is Write {
                1nat
            } else {
                0
            },
            _ => 0,
        }
    }
}

proof fn lemma_polls(plan: ScanPlanView, events: Seq<EventView>)
    ensures
        match scan::run(ScanView::start(plan), events) {
            ScanNextView::Running(now) => {
                let ahead: int = match now.phase {
                    ScanPhaseView::ResumeBaud
                    | ScanPhaseView::ResumeTimeout
                    | ScanPhaseView::Clear
                    | ScanPhaseView::Write(_) => 1,
                    _ => 0,
                };
                polls(ScanView::start(plan), events) == probes(ScanView::start(plan), events)
                    + ahead
            },
            _ => true,
        },
    decreases events.len(),
{
    if events.len() > 0 {
        lemma_polls(plan, events.drop_last());
    }
}

/// Before each slave id is probed, the queue is served until it is empty.
pub proof fn law_queue_is_served_before_each_probe(plan: ScanPlanView, events: Seq<EventView>)
    requires
        match scan::run(ScanView::start(plan), events) {
            ScanNextView::Running(now) => now.phase is Write,
            _ => false,
        },
    ensures
        polls(ScanView::start(plan), events) == probes(ScanView::start(plan), events) + 1,
{
    lemma_polls(plan, events);
}

/// Until a scan is answered, the worker is where the scan is.
proof fn lemma_scan_until_answered(start: WorkerView, first: ScanView, events: Seq<EventView>)
    requires
        start.job == JobView::Scan(first),
        forall|i: int|
            0 <= i <= events.len() ==> !bus::answers_now(
                #[trigger] worker::run(start, events.take(i)),
            ),
    ensures
        match scan::run(first, events) {
            ScanNextView::Running(now) => worker::run(start, events).job == JobView::Scan(now),
            ScanNextView::Finished(_) => false,
            ScanNextView::Aborted => worker::run(start, events).job is Aborted,
        },
    decreases events.len(),
{
    assert(events.take(events.len() as int) =~= events);
    assert(!bus::answers_now(worker::run(start, events.take(events.len() as int))));
    if events.len() > 0 {
        let before = events.drop_last();
        assert forall|i: int| 0 <= i <= before.len() implies !bus::answers_now(
            #[trigger] worker::run(start, before.take(i)),
        ) by {
            assert(before.take(i) =~= events.take(i));
        }
        lemma_scan_until_answered(start, first, before);
    }
}

/// A command that asks for a scan is answered, whatever the port does, if no other command comes in
/// between: after two actions at the end, two for each baud rate that the command lists, and 28
/// for each slave id at each of them, at the latest.
pub proof fn law_scan_command_is_answered(
    worker: WorkerView,
    cmd: Cmd,
    events: Seq<EventView>,
)
    requires
        worker.job is Idle,
        match cmd {
            Cmd::ScanBus { baud_rates, .. } => events.len() >= 2 + baud_rates@.len() * 7170,
            _ => false,
        },
        forall|i: int| 0 <= i < events.len() ==> !(#[trigger] events[i] is Command),
    ensures
        exists|i: int|
            0 <= i <= events.len() && bus::answers_now(
                #[trigger] worker::run(worker.next(EventView::Command(cmd)), events.take(i)),
            ),
{
    let start = worker.next(EventView::Command(cmd));
    if forall|i: int|
        0 <= i <= events.len() ==> !bus::answers_now(
            #[trigger] worker::run(start, events.take(i)),
        ) {
        if let Cmd::ScanBus { baud_rates, slave_id_start, slave_id_end, .. } = cmd {
            let plan = ScanPlanView {
                baud_rates: baud_rates@,
                slave_id_start,
                slave_id_end,
                restore_baud: worker.settings.baud_rate,
                restore_timeout: worker.settings.timeout_ms,
            };
            scan::law_scan_ends(plan, events);
            lemma_scan_until_answered(start, ScanView::start(plan), events);
        }
    }
}

/// A command to a single device is carried out as it was received, and its answer goes to its own
/// sender: what the bytes that were read call for.
pub proof fn law_command_is_answered_by_the_device(
    worker: WorkerView,
    cmd: Cmd,
    cleared: EventView,
    flushed: EventView,
    first: EventView,
    rest: EventView,
    outcome: OutcomeView,
)
    requires
        worker.job is Idle,
        device::sendable(cmd),
        match device::bytes_of(first, 3) {
            Some(head) => head[1] >= 128 || head[1] == device::code(cmd),
            None => false,
        },
        device::verdict(cmd, first, rest) == ExchangeNextView::Finished(outcome),
    ensures
        worker::run(
            worker,
            seq![EventView::Command(cmd)] + seq![cleared, EventView::Done, flushed, first, rest],
        ).action() == ActionView::Reply(Requester::Current, outcome),
{
    let events = seq![cleared, EventView::Done, flushed, first, rest];
    device::law_command_tells_what_was_read(cmd, cleared, flushed, first, rest);
    device::law_command_reads_the_answer(cmd, cleared, EventView::Done, flushed, first);
    assert(events.drop_last() =~= seq![cleared, EventView::Done, flushed, first]);
    worker::law_answer_is_the_outcome(worker, cmd, events, outcome);
}

/// A scan that is asked for while one is under way is refused.
pub proof fn law_queued_scan_is_refused(worker: WorkerView, cmd: Cmd)
    requires
        worker.action() is TryReceive,
        cmd is ScanBus,
    ensures
        worker.next(EventView::Command(cmd)).action() == ActionView::Reply(
            Requester::Interleaved,
            Err::<DataView, ErrorView>(ErrorView::ScanInProgress),
        ),
{
}

/// A command to a single device that is taken from the queue during a scan is carried out at the
/// normal baud rate and timeout.
pub proof fn law_queued_command_is_carried_out(
    port: PortSettingsView,
    events: Seq<EventView>,
    cmd: Cmd,
    rate_set: EventView,
    timeout_set: EventView,
)
    requires
        worker::run(WorkerView::start(port), events).action() is TryReceive,
        !(cmd is ScanBus),
    ensures
        ({
            let taken = worker::run(WorkerView::start(port), events).next(EventView::Command(cmd));
            &&& taken.action() == ActionView::SetBaudRate(port.baud_rate)
            &&& taken.next(rate_set).action() == ActionView::SetTimeout(port.timeout_ms)
            &&& taken.next(rate_set).next(timeout_set).action() == ActionView::ClearAll
        }),
{
    lemma_serving(port, events);
}

/// The work on the queue during a scan knows the normal settings.
proof fn lemma_serving(port: PortSettingsView, events: Seq<EventView>)
    ensures
        ({
            let now = worker::run(WorkerView::start(port), events);
            &&& now.settings == port
            &&& match now.job {
                JobView::Scan(scan) => {
                    &&& scan.plan.restore_baud == port.baud_rate
                    &&& scan.plan.restore_timeout == port.timeout_ms
                    &&& match scan.phase {
                        ScanPhaseView::Service(service) => {
                            &&& service.normal_baud == port.baud_rate
                            &&& service.normal_timeout == port.timeout_ms
                        },
                        _ => true,
                    }
                },
                _ => true,
            }
        }),
    decreases events.len(),
{
    if events.len() > 0 {
        lemma_serving(port, events.drop_last());
    }
}

/// The pause after a failed attempt to open the port is five seconds.
pub proof fn law_pauses_are_five_seconds(worker: WorkerView, seconds: u64)
    requires
        worker.action() == ActionView::Pause(seconds),
    ensures
        seconds == 5,
{
}

/// The worker gives up if and only if a sound answer to a register request has no data, be it that
/// of the command that it received last or of one from the queue; and then for good.
pub proof fn law_gives_up_on_an_empty_answer(
    worker: WorkerView,
    exchange: ExchangeView,
    event: EventView,
)
    requires
        at_work_on(worker) == Some(exchange),
    ensures
        worker.next(event).action() is Abort <==> exchange.next(event) is Aborted,
        worker.next(event).action() is Abort ==> worker.next(event).next(event).action() is Abort,
{
}

/// The command to a single device that the worker carries out, if it does.
pub open spec fn at_work_on(worker: WorkerView) -> Option<ExchangeView> {
    match worker.job {
        JobView::Run(exchange) => Some(exchange),
        JobView::Scan(scan) => match scan.phase {
            ScanPhaseView::Service(service) => match service.phase {
                ServicePhaseView::Run(exchange) => Some(exchange),
                _ => None,
            },
            _ => None,
        },
        _ => None,
    }
}

/// A command to a single device that is taken from the queue during a scan is answered to its own
/// sender by what the bytes that were read call for. Then the worker is where it was before.
pub proof fn law_queued_command_is_answered_by_the_device(
    worker: WorkerView,
    cmd: Cmd,
    rate_set: EventView,
    timeout_set: EventView,
    drained: EventView,
    cleared: EventView,
    flushed: EventView,
    first: EventView,
    rest: EventView,
    outcome: OutcomeView,
    sent: EventView,
)
    requires
        worker.action() is TryReceive,
        device::sendable(cmd),
        match device::bytes_of(first, 3) {
            Some(head) => head[1] >= 128 || head[1] == device::code(cmd),
            None => false,
        },
        device::verdict(cmd, first, rest) == ExchangeNextView::Finished(outcome),
    ensures
        ({
            let taken = worker.next(EventView::Command(cmd));
            let end = worker::run(
                taken,
                seq![rate_set, timeout_set, drained] + seq![
                    cleared,
                    EventView::Done,
                    flushed,
                    first,
                    rest,
                ],
            );
            &&& end.action() == ActionView::Reply(Requester::Interleaved, outcome)
            &&& end.next(sent) == worker
        }),
{
    let events = seq![cleared, EventView::Done, flushed, first, rest];
    device::law_command_tells_what_was_read(cmd, cleared, flushed, first, rest);
    device::law_command_reads_the_answer(cmd, cleared, EventView::Done, flushed, first);
    assert(events.drop_last() =~= seq![cleared, EventView::Done, flushed, first]);
    if let JobView::Scan(scan) = worker.job {
        if let ScanPhaseView::Service(service) = scan.phase {
            worker::law_queued_answer_is_the_outcome(
                worker,
                scan,
                service,
                cmd,
                rate_set,
                timeout_set,
                drained,
                events,
                outcome,
                sent,
            );
        }
    }
}

} // verus!
