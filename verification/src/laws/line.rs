//! What a scan finds on a line whose devices always answer alike.

use crate::data::{Capabilities, Device};
use crate::frame;
use crate::frame::{
    READ_COILS, READ_DISCRETE_INPUTS, READ_HOLDING_REGISTERS, READ_INPUT_REGISTERS,
};
use crate::laws::probe;
use crate::laws::scan;
use crate::port::EventView;
use crate::probe::{
    CapabilityNextView, CapabilityProbeView, ProbePhaseView, Survey, PROBED_BITS, PROBED_REGISTERS,
};
use crate::scan::{ScanNextView, ScanPhaseView, ScanPlanView, ScanView};
use vstd::prelude::*;

verus! {

/// A line on which the same thing always has the same result.
pub struct Line {
    /// What comes of an attempt to set a baud rate.
    pub sets: spec_fn(u32) -> EventView,
    /// What comes of an attempt to write a request at a baud rate.
    pub writes: spec_fn(u32, Seq<u8>) -> EventView,
    /// What comes of an attempt to read the start of the answer to it.
    pub answers: spec_fn(u32, Seq<u8>) -> EventView,
}

/// The request that reads `count` items from address 0.
pub open spec fn request(slave_id: u8, func: u8, count: u16) -> Seq<u8> {
    frame::sealed(frame::word_request(slave_id, func, 0, count))
}

impl Line {
    /// Whether a probe for one coil can be written and is answered.
    pub open spec fn alive(self, baud: u32, slave_id: u8) -> bool {
        let probe = request(slave_id, READ_COILS, 1);
        &&& (self.writes)(baud, probe) is Done
        &&& (self.answers)(baud, probe).bytes(3) is Some
    }

    /// What a probe for `count` items finds.
    pub open spec fn count(self, baud: u32, slave_id: u8, func: u8, count: u16) -> u16 {
        let sent = request(slave_id, func, count);
        probe::found(func, count, (self.writes)(baud, sent), (self.answers)(baud, sent))
    }

    /// The device at a baud rate and a slave id.
    pub open spec fn device(self, baud: u32, slave_id: u8) -> Device {
        Device {
            slave_id,
            baud_rate: baud,
            caps: Capabilities {
                coils: self.count(baud, slave_id, READ_COILS, PROBED_BITS),
                discrete_inputs: self.count(baud, slave_id, READ_DISCRETE_INPUTS, PROBED_BITS),
                holding_registers: self.count(
                    baud,
                    slave_id,
                    READ_HOLDING_REGISTERS,
                    PROBED_REGISTERS,
                ),
                input_registers: self.count(baud, slave_id, READ_INPUT_REGISTERS, PROBED_REGISTERS),
            },
        }
    }

    /// The devices at one baud rate with slave ids from `start` up to but not including `end`.
    pub open spec fn row(self, baud: u32, start: int, end: int) -> Seq<Device>
        decreases end - start,
    {
        if end <= start {
            Seq::empty()
        } else {
            let before = self.row(baud, start, end - 1);
            if self.alive(baud, (end - 1) as u8) {
                before.push(self.device(baud, (end - 1) as u8))
            } else {
                before
            }
        }
    }

    /// The devices with slave ids from `start` to `end` at those of the baud rates that can be
    /// set.
    pub open spec fn census(self, rates: Seq<u32>, start: u8, end: u8) -> Seq<Device>
        decreases rates.len(),
    {
        if rates.len() == 0 {
            Seq::empty()
        } else {
            let before = self.census(rates.drop_last(), start, end);
            if (self.sets)(rates.last()) is Done {
                before + self.row(rates.last(), start as int, end + 1)
            } else {
                before
            }
        }
    }

    /// Whether the pending action of a scan can be answered by `event` on this line while no
    /// command comes in. What becomes of a timeout, of a flush or of clearing does not matter.
    pub open spec fn allows(self, scan: ScanView, event: EventView) -> bool {
        match scan.phase {
            ScanPhaseView::SetBaud => event == (self.sets)(scan.baud),
            ScanPhaseView::Service(_) => !(event is Command),
            ScanPhaseView::Write(sent) => event == (self.writes)(scan.baud, sent),
            ScanPhaseView::Read => event == (self.answers)(
                scan.baud,
                request(scan.slave_id, READ_COILS, 1),
            ),
            ScanPhaseView::Survey(survey) => match survey.probe.phase {
                ProbePhaseView::Write(sent) => event == (self.writes)(scan.baud, sent),
                ProbePhaseView::Read => event == (self.answers)(
                    scan.baud,
                    request(survey.probe.slave_id, survey.probe.func, survey.probe.count),
                ),
                _ => true,
            },
            _ => true,
        }
    }

    /// Whether the actions of a scan can be answered by `events` on this line.
    pub open spec fn gives(self, start: ScanView, events: Seq<EventView>) -> bool
        decreases events.len(),
    {
        if events.len() == 0 {
            true
        } else {
            &&& self.gives(start, events.drop_last())
            &&& match scan::run(start, events.drop_last()) {
                ScanNextView::Running(scan) => self.allows(scan, events.last()),
                _ => true,
            }
        }
    }
}

/// Whether a survey is where this line brings it.
spec fn surveying(line: Line, baud: u32, slave_id: u8, survey: CapabilityProbeView) -> bool {
    let device = line.device(baud, slave_id);
    let func = survey.survey.func();
    let count = survey.survey.count();
    let sent = request(slave_id, func, count);
    &&& survey.probe.slave_id == slave_id
    &&& survey.probe.func == func
    &&& survey.probe.count == count
    &&& match survey.survey {
        Survey::Coils => true,
        Survey::DiscreteInputs { coils } => coils == device.caps.coils,
        Survey::HoldingRegisters { coils, discrete_inputs } => {
            &&& coils == device.caps.coils
            &&& discrete_inputs == device.caps.discrete_inputs
        },
        Survey::InputRegisters { coils, discrete_inputs, holding_registers } => {
            &&& coils == device.caps.coils
            &&& discrete_inputs == device.caps.discrete_inputs
            &&& holding_registers == device.caps.holding_registers
        },
    }
    &&& match survey.probe.phase {
        ProbePhaseView::Clear => true,
        ProbePhaseView::Write(written) => written == sent,
        ProbePhaseView::Flush | ProbePhaseView::Read => (line.writes)(baud, sent) is Done,
        ProbePhaseView::Drain { served } => line.count(baud, slave_id, func, count) == if served {
            count
        } else {
            0
        },
    }
}

/// Whether a scan is where this line brings it.
spec fn scanning(line: Line, plan: ScanPlanView, scan: ScanView) -> bool {
    let first = plan.slave_id_start;
    let last = plan.slave_id_end;
    let probe = request(scan.slave_id, READ_COILS, 1);
    let done = line.census(plan.baud_rates.take(scan.next_rate - 1), first, last);
    &&& scan.plan == plan
    &&& scan.next_rate <= plan.baud_rates.len()
    &&& match scan.phase {
        ScanPhaseView::RestoreBaud | ScanPhaseView::RestoreTimeout => scan.discovered
            == line.census(plan.baud_rates, first, last),
        ScanPhaseView::SetBaud => {
            &&& scan.next_rate > 0
            &&& scan.baud == plan.baud_rates[scan.next_rate - 1]
            &&& scan.discovered == done
        },
        _ => {
            &&& scan.next_rate > 0
            &&& scan.baud == plan.baud_rates[scan.next_rate - 1]
            &&& (line.sets)(scan.baud) is Done
            &&& if scan.phase is SetTimeout {
                scan.discovered == done
            } else {
                &&& first <= scan.slave_id <= last
                &&& scan.discovered == done + line.row(
                    scan.baud,
                    first as int,
                    scan.slave_id as int,
                )
            }
            &&& match scan.phase {
                ScanPhaseView::Service(service) => service.phase is Poll,
                ScanPhaseView::Write(sent) => sent == probe,
                ScanPhaseView::Flush | ScanPhaseView::Read => (line.writes)(
                    scan.baud,
                    probe,
                ) is Done,
                ScanPhaseView::DrainFound => line.alive(scan.baud, scan.slave_id),
                ScanPhaseView::Survey(survey) => {
                    &&& line.alive(scan.baud, scan.slave_id)
                    &&& surveying(line, scan.baud, scan.slave_id, survey)
                },
                ScanPhaseView::DrainMissed => !line.alive(scan.baud, scan.slave_id),
                _ => true,
            }
        },
    }
}

/// A scan that is done with a baud rate goes on to the next one.
proof fn lemma_next_baud(line: Line, plan: ScanPlanView, scan: ScanView)
    requires
        scan.plan == plan,
        scan.next_rate <= plan.baud_rates.len(),
        scan.discovered == line.census(
            plan.baud_rates.take(scan.next_rate as int),
            plan.slave_id_start,
            plan.slave_id_end,
        ),
    ensures
        scanning(line, plan, scan.next_baud()),
{
    assert(plan.baud_rates.take(plan.baud_rates.len() as int) =~= plan.baud_rates);
}

/// A scan that is done with a slave id goes on to the next one.
proof fn lemma_next_slave(line: Line, plan: ScanPlanView, scan: ScanView)
    requires
        scan.plan == plan,
        0 < scan.next_rate <= plan.baud_rates.len(),
        scan.baud == plan.baud_rates[scan.next_rate - 1],
        (line.sets)(scan.baud) is Done,
        plan.slave_id_start <= scan.slave_id <= plan.slave_id_end,
        scan.discovered == line.census(
            plan.baud_rates.take(scan.next_rate - 1),
            plan.slave_id_start,
            plan.slave_id_end,
        ) + line.row(scan.baud, plan.slave_id_start as int, scan.slave_id + 1),
    ensures
        scanning(line, plan, scan.next_slave()),
{
    if scan.slave_id == plan.slave_id_end {
        let rates = plan.baud_rates.take(scan.next_rate as int);
        assert(rates.drop_last() =~= plan.baud_rates.take(scan.next_rate - 1));
        lemma_next_baud(line, plan, scan);
    }
}

/// One step of a survey on this line.
proof fn lemma_survey_step(
    line: Line,
    baud: u32,
    slave_id: u8,
    survey: CapabilityProbeView,
    event: EventView,
)
    requires
        surveying(line, baud, slave_id, survey),
        match survey.probe.phase {
            ProbePhaseView::Write(sent) => event == (line.writes)(baud, sent),
            ProbePhaseView::Read => event == (line.answers)(
                baud,
                request(survey.probe.slave_id, survey.probe.func, survey.probe.count),
            ),
            _ => true,
        },
    ensures
        match survey.next(event) {
            CapabilityNextView::Running(next) => surveying(line, baud, slave_id, next),
            CapabilityNextView::Finished(caps) => caps == line.device(baud, slave_id).caps,
        },
{
}

/// One step of a scan on this line.
proof fn lemma_scan_step(line: Line, plan: ScanPlanView, scan: ScanView, event: EventView)
    requires
        scanning(line, plan, scan),
        line.allows(scan, event),
    ensures
        match scan.next(event) {
            ScanNextView::Running(next) => scanning(line, plan, next),
            ScanNextView::Finished(discovered) => discovered == line.census(
                plan.baud_rates,
                plan.slave_id_start,
                plan.slave_id_end,
            ),
            ScanNextView::Aborted => false,
        },
{
    let first = plan.slave_id_start as int;
    let rates = plan.baud_rates.take(scan.next_rate as int);
    let done = line.census(
        plan.baud_rates.take(scan.next_rate - 1),
        plan.slave_id_start,
        plan.slave_id_end,
    );
    if scan.next_rate > 0 {
        assert(rates.drop_last() =~= plan.baud_rates.take(scan.next_rate - 1));
        assert(rates.last() == plan.baud_rates[scan.next_rate - 1]);
    }
    match scan.phase {
        ScanPhaseView::SetBaud => {
            if !(event is Done) {
                lemma_next_baud(line, plan, scan);
            }
        },
        ScanPhaseView::SetTimeout => {
            if first <= plan.slave_id_end {
                assert(done + line.row(scan.baud, first, first) =~= done);
            } else {
                assert(done + line.row(scan.baud, first, plan.slave_id_end + 1) =~= done);
                lemma_next_baud(line, plan, scan);
            }
        },
        ScanPhaseView::Write(_) => {
            if !(event is Done) {
                lemma_next_slave(line, plan, scan);
            }
        },
        ScanPhaseView::Survey(survey) => {
            lemma_survey_step(line, scan.baud, scan.slave_id, survey, event);
            match survey.next(event) {
                CapabilityNextView::Finished(_) => {
                    let device = line.device(scan.baud, scan.slave_id);
                    assert(scan.found(device).discovered =~= done + line.row(
                        scan.baud,
                        first,
                        scan.slave_id + 1,
                    ));
                    lemma_next_slave(line, plan, scan.found(device));
                },
                _ => {},
            }
        },
        ScanPhaseView::DrainMissed => {
            lemma_next_slave(line, plan, scan);
        },
        _ => {},
    }
}

proof fn lemma_scan_run(line: Line, plan: ScanPlanView, events: Seq<EventView>)
    requires
        line.gives(ScanView::start(plan), events),
    ensures
        match scan::run(ScanView::start(plan), events) {
            ScanNextView::Running(scan) => scanning(line, plan, scan),
            ScanNextView::Finished(discovered) => discovered == line.census(
                plan.baud_rates,
                plan.slave_id_start,
                plan.slave_id_end,
            ),
            ScanNextView::Aborted => false,
        },
    decreases events.len(),
{
    if events.len() == 0 {
        let empty = plan.baud_rates.take(0);
        assert(line.census(empty, plan.slave_id_start, plan.slave_id_end) =~= Seq::<
            Device,
        >::empty());
        lemma_next_baud(
            line,
            plan,
            ScanView {
                plan,
                next_rate: 0,
                baud: plan.restore_baud,
                slave_id: plan.slave_id_start,
                discovered: Seq::empty(),
                phase: ScanPhaseView::RestoreBaud,
            },
        );
    } else {
        lemma_scan_run(line, plan, events.drop_last());
        if let ScanNextView::Running(scan) = scan::run(ScanView::start(plan), events.drop_last()) {
            lemma_scan_step(line, plan, scan, events.last());
        }
    }
}

/// A scan finds exactly the devices that are on the line, with what they serve: by baud rate in
/// the order of the list, and at each baud rate by slave id.
pub proof fn law_scan_takes_the_census(
    line: Line,
    plan: ScanPlanView,
    events: Seq<EventView>,
    discovered: Seq<Device>,
)
    requires
        line.gives(ScanView::start(plan), events),
        scan::run(ScanView::start(plan), events) == ScanNextView::Finished(discovered),
    ensures
        discovered == line.census(plan.baud_rates, plan.slave_id_start, plan.slave_id_end),
{
    lemma_scan_run(line, plan, events);
}

/// The devices at two lists of baud rates are those at the first and then those at the second.
pub proof fn law_censuses_follow_each_other(
    line: Line,
    a: Seq<u32>,
    b: Seq<u32>,
    start: u8,
    end: u8,
)
    ensures
        line.census(a + b, start, end) == line.census(a, start, end) + line.census(b, start, end),
    decreases b.len(),
{
    if b.len() == 0 {
        assert(a + b =~= a);
        assert(line.census(a, start, end) + line.census(b, start, end) =~= line.census(
            a,
            start,
            end,
        ));
    } else {
        assert((a + b).drop_last() =~= a + b.drop_last());
        law_censuses_follow_each_other(line, a, b.drop_last(), start, end);
        assert(line.census(a + b, start, end) =~= line.census(a, start, end) + line.census(
            b,
            start,
            end,
        ));
    }
}

/// A scan of two lists of baud rates finds what a scan of the first and then a scan of the second
/// find. So the devices at a baud rate that is listed twice are found twice.
pub proof fn law_scans_follow_each_other(
    line: Line,
    both: ScanPlanView,
    a: Seq<u32>,
    b: Seq<u32>,
    events: Seq<EventView>,
    events_a: Seq<EventView>,
    events_b: Seq<EventView>,
    discovered: Seq<Device>,
    discovered_a: Seq<Device>,
    discovered_b: Seq<Device>,
)
    requires
        both.baud_rates == a + b,
        line.gives(ScanView::start(both), events),
        line.gives(ScanView::start(ScanPlanView { baud_rates: a, ..both }), events_a),
        line.gives(ScanView::start(ScanPlanView { baud_rates: b, ..both }), events_b),
        scan::run(ScanView::start(both), events) == ScanNextView::Finished(discovered),
        scan::run(ScanView::start(ScanPlanView { baud_rates: a, ..both }), events_a)
            == ScanNextView::Finished(discovered_a),
        scan::run(ScanView::start(ScanPlanView { baud_rates: b, ..both }), events_b)
            == ScanNextView::Finished(discovered_b),
    ensures
        discovered == discovered_a + discovered_b,
{
    law_scan_takes_the_census(line, both, events, discovered);
    law_scan_takes_the_census(line, ScanPlanView { baud_rates: a, ..both }, events_a, discovered_a);
    law_scan_takes_the_census(line, ScanPlanView { baud_rates: b, ..both }, events_b, discovered_b);
    law_censuses_follow_each_other(line, a, b, both.slave_id_start, both.slave_id_end);
}

} // verus!
