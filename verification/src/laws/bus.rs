//! What the worker finds on a line whose devices always answer alike, told from the actions that it
//! takes and from nothing else. Commands may come in between.

use crate::command::Cmd;
use crate::data::{Capabilities, DataView, Device, OutcomeView};
use crate::error::ErrorView;
use crate::frame;
use crate::laws::device;
use crate::laws::worker;
use crate::port::{ActionView, EventView, Requester};
use crate::probe::{CapabilityNextView, CapabilityProbeView, ProbePhaseView, Survey};
use crate::scan::{ScanNextView, ScanPhaseView, ScanPlanView, ScanView};
use crate::worker::{JobView, WorkerView};
use vstd::prelude::*;

verus! {

/// A line on which the same thing always has the same result.
pub struct Bus {
    /// Whether a baud rate can be set.
    pub sets: spec_fn(u32) -> bool,
    /// Whether these bytes can be written at a baud rate.
    pub writes: spec_fn(u32, Seq<u8>) -> bool,
    /// What comes back when these bytes are written at a baud rate.
    pub answers: spec_fn(u32, Seq<u8>) -> Seq<u8>,
}

/// The port: the baud rate that was last set, and the bytes that wait to be read.
pub struct Port {
    pub baud: u32,
    pub waiting: Seq<u8>,
}

/// The request that reads `count` items from address 0.
pub open spec fn question(slave_id: u8, func: u8, count: u8) -> Seq<u8> {
    device::framed(seq![slave_id, func, 0, 0, 0, count])
}

impl Bus {
    /// The port after an action that was answered by `event`.
    pub open spec fn after(self, port: Port, action: ActionView, event: EventView) -> Port {
        match action {
            ActionView::SetBaudRate(baud) => if event is Done {
                Port { baud, ..port }
            } else {
                port
            },
            ActionView::ClearAll | ActionView::ClearInput => Port { waiting: Seq::empty(), ..port },
            ActionView::Write(sent) => if event is Done {
                Port { waiting: port.waiting + (self.answers)(port.baud, sent), ..port }
            } else {
                port
            },
            ActionView::Read(len) => if len <= port.waiting.len() {
                Port { waiting: port.waiting.skip(len as int), ..port }
            } else {
                Port { waiting: Seq::empty(), ..port }
            },
            _ => port,
        }
    }

    /// Whether an action can be answered by `event` on this line. What becomes of a timeout, of a
    /// flush or of a reply does not matter, and at any time a command may wait in the queue.
    pub open spec fn allows(self, port: Port, action: ActionView, event: EventView) -> bool {
        match action {
            ActionView::SetBaudRate(baud) => event is Done == (self.sets)(baud),
            ActionView::Write(sent) => event is Done == (self.writes)(port.baud, sent),
            ActionView::Read(len) => if len <= port.waiting.len() {
                event == EventView::Bytes(port.waiting.take(len as int))
            } else {
                !(event is Bytes)
            },
            _ => true,
        }
    }

    /// The port after the actions of a worker were answered by `events`.
    pub open spec fn port(self, start: WorkerView, port: Port, events: Seq<EventView>) -> Port
        decreases events.len(),
    {
        if events.len() == 0 {
            port
        } else {
            self.after(
                self.port(start, port, events.drop_last()),
                worker::run(start, events.drop_last()).action(),
                events.last(),
            )
        }
    }

    /// Whether the actions of a worker can be answered by `events` on this line.
    pub open spec fn gives(self, start: WorkerView, port: Port, events: Seq<EventView>) -> bool
        decreases events.len(),
    {
        events.len() > 0 ==> {
            &&& self.gives(start, port, events.drop_last())
            &&& self.allows(
                self.port(start, port, events.drop_last()),
                worker::run(start, events.drop_last()).action(),
                events.last(),
            )
        }
    }

    /// Whether at least three bytes come back when the first coil is asked for.
    pub open spec fn alive(self, baud: u32, slave_id: u8) -> bool {
        &&& (self.writes)(baud, question(slave_id, 1, 1))
        &&& (self.answers)(baud, question(slave_id, 1, 1)).len() >= 3
    }

    /// How many of `count` items a device serves: all of them if it answers the request for them
    /// with the function of that request, and else none.
    pub open spec fn serves(self, baud: u32, slave_id: u8, func: u8, count: u8) -> u16 {
        let sent = question(slave_id, func, count);
        let answer = (self.answers)(baud, sent);
        if (self.writes)(baud, sent) && answer.len() >= 3 && answer[1] == func {
            count as u16
        } else {
            0
        }
    }

    /// The device at a baud rate and a slave id.
    pub open spec fn device(self, baud: u32, slave_id: u8) -> Device {
        Device {
            slave_id,
            baud_rate: baud,
            caps: Capabilities {
                coils: self.serves(baud, slave_id, 1, 8),
                discrete_inputs: self.serves(baud, slave_id, 2, 8),
                holding_registers: self.serves(baud, slave_id, 3, 4),
                input_registers: self.serves(baud, slave_id, 4, 4),
            },
        }
    }

    /// The devices at one baud rate with slave ids from `start` up to but not including `end`.
    pub open spec fn row(self, baud: u32, start: int, end: int) -> Seq<Device>
        decreases end - start,
    {
        if end <= start {
            Seq::empty()
        } else {
            let before = self.row(baud, start, end - 1);
            if self.alive(baud, (end - 1) as u8) {
                before.push(self.device(baud, (end - 1) as u8))
            } else {
                before
            }
        }
    }

    /// The devices with slave ids from `start` to `end` at those of the baud rates that can be
    /// set, in the order of the rates and then of the ids.
    pub open spec fn census(self, rates: Seq<u32>, start: u8, end: u8) -> Seq<Device>
        decreases rates.len(),
    {
        if rates.len() == 0 {
            Seq::empty()
        } else {
            let before = self.census(rates.drop_last(), start, end);
            if (self.sets)(rates.last()) {
                before + self.row(rates.last(), start as int, end + 1)
            } else {
                before
            }
        }
    }
}

/// The request of a probe is the one that is meant.
proof fn lemma_question(slave_id: u8, func: u8, count: u8)
    ensures
        frame::sealed(frame::word_request(slave_id, func, 0, count as u16)) == question(
            slave_id,
            func,
            count,
        ),
{
    let body = frame::word_request(slave_id, func, 0, count as u16);
    assert(body =~= seq![slave_id, func, 0, 0, 0, count]);
    assert(frame::sealed(body) =~= device::framed(body));
}

/// How many items of a kind are asked for.
spec fn asked(survey: Survey) -> u8 {
    match survey {
        Survey::Coils => 8,
        Survey::DiscreteInputs { .. } => 8,
        Survey::HoldingRegisters { .. } => 4,
        Survey::InputRegisters { .. } => 4,
    }
}

/// Whether a survey is where this line brings it.
spec fn surveying(
    bus: Bus,
    port: Port,
    baud: u32,
    slave_id: u8,
    survey: CapabilityProbeView,
) -> bool {
    let caps = bus.device(baud, slave_id).caps;
    let func = survey.probe.func;
    let count = asked(survey.survey);
    let sent = question(slave_id, func, count);
    &&& survey.probe.slave_id == slave_id
    &&& survey.probe.count == count
    &&& match survey.survey {
        Survey::Coils => func == 1,
        Survey::DiscreteInputs { coils } => func == 2 && coils == caps.coils,
        Survey::HoldingRegisters { coils, discrete_inputs } => {
            &&& func == 3
            &&& coils == caps.coils
            &&& discrete_inputs == caps.discrete_inputs
        },
        Survey::InputRegisters { coils, discrete_inputs, holding_registers } => {
            &&& func == 4
            &&& coils == caps.coils
            &&& discrete_inputs == caps.discrete_inputs
            &&& holding_registers == caps.holding_registers
        },
    }
    &&& match survey.probe.phase {
        ProbePhaseView::Clear => true,
        ProbePhaseView::Write(written) => written == sent && port.waiting.len() == 0,
        ProbePhaseView::Flush | ProbePhaseView::Read => (bus.writes)(baud, sent) && port.waiting
            == (bus.answers)(baud, sent),
        ProbePhaseView::Drain { served } => bus.serves(baud, slave_id, func, count) == if served {
            count as u16
        } else {
            0
        },
    }
}

/// Whether a scan is where this line brings it.
spec fn scanning(bus: Bus, port: Port, plan: ScanPlanView, scan: ScanView) -> bool {
    let first = plan.slave_id_start;
    let last = plan.slave_id_end;
    let probe = question(scan.slave_id, 1, 1);
    let done = bus.census(plan.baud_rates.take(scan.next_rate - 1), first, last);
    &&& scan.plan == plan
    &&& scan.next_rate <= plan.baud_rates.len()
    &&& match scan.phase {
        ScanPhaseView::RestoreBaud | ScanPhaseView::RestoreTimeout => scan.discovered
            == bus.census(plan.baud_rates, first, last),
        ScanPhaseView::SetBaud => {
            &&& scan.next_rate > 0
            &&& scan.baud == plan.baud_rates[scan.next_rate - 1]
            &&& scan.discovered == done
        },
        _ => {
            &&& scan.next_rate > 0
            &&& scan.baud == plan.baud_rates[scan.next_rate - 1]
            &&& (bus.sets)(scan.baud)
            &&& scan.phase is Service || scan.phase is ResumeBaud || port.baud == scan.baud
            &&& if scan.phase is SetTimeout {
                scan.discovered == done
            } else {
                &&& first <= scan.slave_id <= last
                &&& scan.discovered == done + bus.row(
                    scan.baud,
                    first as int,
                    scan.slave_id as int,
                )
            }
            &&& match scan.phase {
                ScanPhaseView::Write(sent) => sent == probe && port.waiting.len() == 0,
                ScanPhaseView::Flush | ScanPhaseView::Read => (bus.writes)(scan.baud, probe)
                    && port.waiting == (bus.answers)(scan.baud, probe),
                ScanPhaseView::DrainFound => bus.alive(scan.baud, scan.slave_id),
                ScanPhaseView::Survey(survey) => {
                    &&& bus.alive(scan.baud, scan.slave_id)
                    &&& surveying(bus, port, scan.baud, scan.slave_id, survey)
                },
                ScanPhaseView::DrainMissed => !bus.alive(scan.baud, scan.slave_id),
                _ => true,
            }
        },
    }
}

/// A scan that is done with a baud rate goes on to the next one.
proof fn lemma_next_baud(bus: Bus, port: Port, plan: ScanPlanView, scan: ScanView)
    requires
        scan.plan == plan,
        scan.next_rate <= plan.baud_rates.len(),
        scan.discovered == bus.census(
            plan.baud_rates.take(scan.next_rate as int),
            plan.slave_id_start,
            plan.slave_id_end,
        ),
    ensures
        scanning(bus, port, plan, scan.next_baud()),
{
    assert(plan.baud_rates.take(plan.baud_rates.len() as int) =~= plan.baud_rates);
}

/// A scan that is done with a slave id goes on to the next one.
proof fn lemma_next_slave(bus: Bus, port: Port, plan: ScanPlanView, scan: ScanView)
    requires
        scan.plan == plan,
        0 < scan.next_rate <= plan.baud_rates.len(),
        scan.baud == plan.baud_rates[scan.next_rate - 1],
        (bus.sets)(scan.baud),
        plan.slave_id_start <= scan.slave_id <= plan.slave_id_end,
        scan.discovered == bus.census(
            plan.baud_rates.take(scan.next_rate - 1),
            plan.slave_id_start,
            plan.slave_id_end,
        ) + bus.row(scan.baud, plan.slave_id_start as int, scan.slave_id + 1),
    ensures
        scanning(bus, port, plan, scan.next_slave()),
{
    if scan.slave_id == plan.slave_id_end {
        let rates = plan.baud_rates.take(scan.next_rate as int);
        assert(rates.drop_last() =~= plan.baud_rates.take(scan.next_rate - 1));
        lemma_next_baud(bus, port, plan, scan);
    }
}

/// One step of a survey on this line.
proof fn lemma_survey_step(
    bus: Bus,
    port: Port,
    slave_id: u8,
    survey: CapabilityProbeView,
    event: EventView,
)
    requires
        surveying(bus, port, port.baud, slave_id, survey),
        bus.allows(port, survey.action(), event),
    ensures
        ({
            let then = bus.after(port, survey.action(), event);
            &&& then.baud == port.baud
            &&& match survey.next(event) {
                CapabilityNextView::Running(next) => surveying(
                    bus,
                    then,
                    port.baud,
                    slave_id,
                    next,
                ),
                CapabilityNextView::Finished(caps) => caps == bus.device(port.baud, slave_id).caps,
            }
        }),
{
    let sent = question(slave_id, survey.probe.func, asked(survey.survey));
    lemma_question(slave_id, survey.probe.func, asked(survey.survey));
    assert(port.waiting.len() == 0 ==> port.waiting + (bus.answers)(port.baud, sent)
        =~= (bus.answers)(port.baud, sent));
}

/// One step of a scan on this line.
proof fn lemma_scan_step(
    bus: Bus,
    port: Port,
    plan: ScanPlanView,
    scan: ScanView,
    event: EventView,
)
    requires
        scanning(bus, port, plan, scan),
        bus.allows(port, scan.action(), event),
    ensures
        match scan.next(event) {
            ScanNextView::Running(next) => scanning(
                bus,
                bus.after(port, scan.action(), event),
                plan,
                next,
            ),
            ScanNextView::Finished(discovered) => discovered == bus.census(
                plan.baud_rates,
                plan.slave_id_start,
                plan.slave_id_end,
            ),
            ScanNextView::Aborted => scan.phase is Service,
        },
{
    let then = bus.after(port, scan.action(), event);
    let first = plan.slave_id_start as int;
    let rates = plan.baud_rates.take(scan.next_rate as int);
    let done = bus.census(
        plan.baud_rates.take(scan.next_rate - 1),
        plan.slave_id_start,
        plan.slave_id_end,
    );
    let probe = question(scan.slave_id, 1, 1);
    lemma_question(scan.slave_id, 1, 1);
    assert(port.waiting.len() == 0 ==> port.waiting + (bus.answers)(port.baud, probe)
        =~= (bus.answers)(port.baud, probe));
    if scan.next_rate > 0 {
        assert(rates.drop_last() =~= plan.baud_rates.take(scan.next_rate - 1));
        assert(rates.last() == plan.baud_rates[scan.next_rate - 1]);
    }
    match scan.phase {
        ScanPhaseView::SetBaud => {
            if !(event is Done) {
                lemma_next_baud(bus, then, plan, scan);
            }
        },
        ScanPhaseView::SetTimeout => {
            if first <= plan.slave_id_end {
                assert(done + bus.row(scan.baud, first, first) =~= done);
            } else {
                assert(done + bus.row(scan.baud, first, plan.slave_id_end + 1) =~= done);
                lemma_next_baud(bus, then, plan, scan);
            }
        },
        ScanPhaseView::Write(_) => {
            if !(event is Done) {
                lemma_next_slave(bus, then, plan, scan);
            }
        },
        ScanPhaseView::Survey(survey) => {
            lemma_survey_step(bus, port, scan.slave_id, survey, event);
            match survey.next(event) {
                CapabilityNextView::Finished(_) => {
                    let device = bus.device(scan.baud, scan.slave_id);
                    assert(scan.found(device).discovered =~= done + bus.row(
                        scan.baud,
                        first,
                        scan.slave_id + 1,
                    ));
                    lemma_next_slave(bus, then, plan, scan.found(device));
                },
                _ => {},
            }
        },
        ScanPhaseView::DrainMissed => {
            lemma_next_slave(bus, then, plan, scan);
        },
        _ => {},
    }
}

/// Where a worker is that was handed a scan, until it answers.
spec fn under_way(
    bus: Bus,
    worker: WorkerView,
    port: Port,
    rates: Seq<u32>,
    first: u8,
    last: u8,
) -> bool {
    match worker.job {
        JobView::Scan(scan) => {
            &&& scanning(bus, port, scan.plan, scan)
            &&& scan.plan.baud_rates == rates
            &&& scan.plan.slave_id_start == first
            &&& scan.plan.slave_id_end == last
        },
        JobView::Answer(outcome) => outcome == Ok::<DataView, ErrorView>(
            DataView::ScanResult { discovered: bus.census(rates, first, last) },
        ),
        JobView::Aborted => true,
        _ => false,
    }
}

/// Whether the worker is about to answer the command that it received last.
pub open spec fn answers_now(worker: WorkerView) -> bool {
    match worker.action() {
        ActionView::Reply(to, _) => to == Requester::Current,
        _ => false,
    }
}

/// Whether a worker that was handed a command has not answered it before all of `events`.
pub open spec fn unanswered(start: WorkerView, events: Seq<EventView>) -> bool {
    forall|i: int|
        0 <= i < events.len() ==> !answers_now(#[trigger] worker::run(start, events.take(i)))
}

proof fn lemma_taken(
    bus: Bus,
    worker: WorkerView,
    port: Port,
    cmd: Cmd,
    rates: Seq<u32>,
    first: u8,
    last: u8,
)
    requires
        worker.job is Idle,
        match cmd {
            Cmd::ScanBus { baud_rates, slave_id_start, slave_id_end, .. } => {
                &&& baud_rates@ == rates
                &&& slave_id_start == first
                &&& slave_id_end == last
            },
            _ => false,
        },
    ensures
        under_way(bus, worker.next(EventView::Command(cmd)), port, rates, first, last),
{
    let plan = ScanPlanView {
        baud_rates: rates,
        slave_id_start: first,
        slave_id_end: last,
        restore_baud: worker.settings.baud_rate,
        restore_timeout: worker.settings.timeout_ms,
    };
    assert(bus.census(rates.take(0), first, last) =~= Seq::<Device>::empty());
    lemma_next_baud(
        bus,
        port,
        plan,
        ScanView {
            plan,
            next_rate: 0,
            baud: plan.restore_baud,
            slave_id: plan.slave_id_start,
            discovered: Seq::empty(),
            phase: ScanPhaseView::RestoreBaud,
        },
    );
}

proof fn lemma_under_way(
    bus: Bus,
    start: WorkerView,
    port: Port,
    rates: Seq<u32>,
    first: u8,
    last: u8,
    events: Seq<EventView>,
)
    requires
        under_way(bus, start, port, rates, first, last),
        bus.gives(start, port, events),
        unanswered(start, events),
    ensures
        under_way(
            bus,
            worker::run(start, events),
            bus.port(start, port, events),
            rates,
            first,
            last,
        ),
    decreases events.len(),
{
    if events.len() > 0 {
        let before = events.drop_last();
        assert forall|i: int| 0 <= i < before.len() implies !answers_now(
            #[trigger] worker::run(start, before.take(i)),
        ) by {
            assert(before.take(i) =~= events.take(i));
        }
        lemma_under_way(bus, start, port, rates, first, last, before);
        assert(events.take(events.len() - 1) =~= before);
        let now = worker::run(start, before);
        assert(!answers_now(now));
        if let JobView::Scan(scan) = now.job {
            lemma_scan_step(bus, bus.port(start, port, before), scan.plan, scan, events.last());
        }
    }
}

/// The answer to a command that asks for a scan is a scan result with exactly the devices on the
/// line, each with what it serves: those at all the baud rates that the command lists, in that
/// order and as far as they can be set, and with all the slave ids from the first one that the
/// command names to the last. Commands that are carried out in between change nothing of that.
pub proof fn law_scan_command_gives_the_census(
    bus: Bus,
    worker: WorkerView,
    port: Port,
    cmd: Cmd,
    events: Seq<EventView>,
    outcome: OutcomeView,
)
    requires
        worker.job is Idle,
        cmd is ScanBus,
        bus.gives(worker.next(EventView::Command(cmd)), port, events),
        unanswered(worker.next(EventView::Command(cmd)), events),
        worker::run(worker.next(EventView::Command(cmd)), events).action() == ActionView::Reply(
            Requester::Current,
            outcome,
        ),
    ensures
        match cmd {
            Cmd::ScanBus { baud_rates, slave_id_start, slave_id_end, .. } => outcome == Ok::<
                DataView,
                ErrorView,
            >(
                DataView::ScanResult {
                    discovered: bus.census(baud_rates@, slave_id_start, slave_id_end),
                },
            ),
            _ => false,
        },
{
    if let Cmd::ScanBus { baud_rates, slave_id_start, slave_id_end, .. } = cmd {
        lemma_taken(bus, worker, port, cmd, baud_rates@, slave_id_start, slave_id_end);
        lemma_under_way(
            bus,
            worker.next(EventView::Command(cmd)),
            port,
            baud_rates@,
            slave_id_start,
            slave_id_end,
            events,
        );
    }
}

/// The devices at two lists of baud rates are those at the first and then those at the second.
pub proof fn law_census_of_two_lists(bus: Bus, a: Seq<u32>, b: Seq<u32>, start: u8, end: u8)
    ensures
        bus.census(a + b, start, end) == bus.census(a, start, end) + bus.census(b, start, end),
    decreases b.len(),
{
    if b.len() == 0 {
        assert(a + b =~= a);
        assert(bus.census(a, start, end) + bus.census(b, start, end) =~= bus.census(a, start, end));
    } else {
        assert((a + b).drop_last() =~= a + b.drop_last());
        law_census_of_two_lists(bus, a, b.drop_last(), start, end);
        assert(bus.census(a + b, start, end) =~= bus.census(a, start, end) + bus.census(
            b,
            start,
            end,
        ));
    }
}

/// A device is in the census if and only if something is alive at its baud rate and its slave id,
/// the rate is listed and can be set, and the id is one of the range; and it is there with what it
/// serves.
pub proof fn law_census_has_what_is_alive(
    bus: Bus,
    rates: Seq<u32>,
    start: u8,
    end: u8,
    device: Device,
)
    ensures
        bus.census(rates, start, end).contains(device) <==> {
            &&& rates.contains(device.baud_rate)
            &&& (bus.sets)(device.baud_rate)
            &&& start <= device.slave_id <= end
            &&& bus.alive(device.baud_rate, device.slave_id)
            &&& device == bus.device(device.baud_rate, device.slave_id)
        },
    decreases rates.len(),
{
    if rates.len() > 0 {
        let front = rates.drop_last();
        let rate = rates.last();
        law_census_has_what_is_alive(bus, front, start, end, device);
        lemma_row_has(bus, rate, start as int, end + 1, device);
        let before = bus.census(front, start, end);
        let row = bus.row(rate, start as int, end + 1);
        assert(rates =~= front.push(rate));
        assert(rates.contains(device.baud_rate) <==> front.contains(device.baud_rate)
            || device.baud_rate == rate) by {
            if front.contains(device.baud_rate) {
                let i = choose|i: int| 0 <= i < front.len() && front[i] == device.baud_rate;
                assert(rates[i] == device.baud_rate);
            }
            if device.baud_rate == rate {
                assert(rates[rates.len() - 1] == device.baud_rate);
            }
            if rates.contains(device.baud_rate) && device.baud_rate != rate {
                let i = choose|i: int| 0 <= i < rates.len() && rates[i] == device.baud_rate;
                assert(front[i] == device.baud_rate);
            }
        }
        lemma_contains_of_two(before, row, device);
    }
}

proof fn lemma_contains_of_two(a: Seq<Device>, b: Seq<Device>, device: Device)
    ensures
        (a + b).contains(device) <==> a.contains(device) || b.contains(device),
{
    if a.contains(device) {
        let i = choose|i: int| 0 <= i < a.len() && a[i] == device;
        assert((a + b)[i] == device);
    }
    if b.contains(device) {
        let i = choose|i: int| 0 <= i < b.len() && b[i] == device;
        assert((a + b)[a.len() + i] == device);
    }
    if (a + b).contains(device) {
        let i = choose|i: int| 0 <= i < (a + b).len() && (a + b)[i] == device;
        if i < a.len() {
            assert(a[i] == device);
        } else {
            assert(b[i - a.len()] == device);
        }
    }
}

proof fn lemma_row_has(bus: Bus, baud: u32, start: int, end: int, device: Device)
    requires
        0 <= start,
        end <= 256,
    ensures
        bus.row(baud, start, end).contains(device) <==> {
            &&& device.baud_rate == baud
            &&& start <= device.slave_id < end
            &&& bus.alive(baud, device.slave_id)
            &&& device == bus.device(baud, device.slave_id)
        },
    decreases end - start,
{
    if start < end {
        lemma_row_has(bus, baud, start, end - 1, device);
        let before = bus.row(baud, start, end - 1);
        let last = bus.device(baud, (end - 1) as u8);
        let tail = seq![last];
        lemma_contains_of_two(before, tail, device);
        assert(before.push(last) =~= before + tail);
        assert(tail.contains(device) <==> device == last) by {
            assert(tail[0] == last);
        }
    }
}

} // verus!
