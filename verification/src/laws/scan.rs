//! What holds of a scan from start to end.

use crate::data::Device;
use crate::frame;
use crate::frame::READ_COILS;
use crate::laws::probe;
use crate::port::{ActionView, EventView};
use crate::probe::{CapabilityNextView, CapabilityProbeView, ProbePhaseView, Survey};
use crate::scan::{ScanNextView, ScanPhaseView, ScanPlanView, ScanView};
use vstd::prelude::*;

verus! {

/// What a scan comes to when its actions are answered by `events`, one after the other.
pub open spec fn run(start: ScanView, events: Seq<EventView>) -> ScanNextView
    decreases events.len(),
{
    if events.len() == 0 {
        ScanNextView::Running(start)
    } else {
        match run(start, events.drop_last()) {
            ScanNextView::Running(scan) => scan.next(events.last()),
            ended => ended,
        }
    }
}

/// The end of a probe: where it went, and whether anything came back.
pub struct Trial {
    pub baud: u32,
    pub slave_id: u8,
    pub heard: bool,
}

/// The probe that ends when the pending action of `scan` is answered by `event`, if one does.
pub open spec fn trial(scan: ScanView, event: EventView) -> Option<Trial> {
    let ended = |heard: bool|
        Some(Trial { baud: scan.baud, slave_id: scan.slave_id, heard });
    match scan.phase {
        ScanPhaseView::Write(_) => if event is Done {
            None
        } else {
            ended(false)
        },
        ScanPhaseView::Read => ended(event.bytes(3) is Some),
        _ => None,
    }
}

/// The probes that end while the actions of a scan are answered by `events`, in order.
pub open spec fn trials(start: ScanView, events: Seq<EventView>) -> Seq<Trial>
    decreases events.len(),
{
    if events.len() == 0 {
        Seq::empty()
    } else {
        let before = trials(start, events.drop_last());
        match run(start, events.drop_last()) {
            ScanNextView::Running(scan) => match trial(scan, events.last()) {
                Some(ended) => before.push(ended),
                None => before,
            },
            _ => before,
        }
    }
}

/// For each baud rate that was tried, in order, whether it could be set.
pub open spec fn settings(start: ScanView, events: Seq<EventView>) -> Seq<bool>
    decreases events.len(),
{
    if events.len() == 0 {
        Seq::empty()
    } else {
        let before = settings(start, events.drop_last());
        match run(start, events.drop_last()) {
            ScanNextView::Running(scan) => if scan.phase is SetBaud {
                before.push(events.last() is Done)
            } else {
                before
            },
            _ => before,
        }
    }
}

/// The baud rates that could be set.
pub open spec fn usable(rates: Seq<u32>, settings: Seq<bool>) -> Seq<u32>
    decreases settings.len(),
{
    if settings.len() == 0 {
        Seq::empty()
    } else {
        let before = usable(rates, settings.drop_last());
        if settings.last() {
            before.push(rates[settings.len() - 1])
        } else {
            before
        }
    }
}

/// The slave ids from `start` up to but not including `end`, all at one baud rate.
pub open spec fn row(baud: u32, start: int, end: int) -> Seq<(u32, u8)> {
    Seq::new(
        if start <= end {
            (end - start) as nat
        } else {
            0
        },
        |i: int| (baud, (start + i) as u8),
    )
}

/// All slave ids from `start` to `end` at each of the baud rates, in order.
pub open spec fn sweep(rates: Seq<u32>, start: u8, end: u8) -> Seq<(u32, u8)>
    decreases rates.len(),
{
    if rates.len() == 0 {
        Seq::empty()
    } else {
        sweep(rates.drop_last(), start, end) + row(rates.last(), start as int, end + 1)
    }
}

/// Where the probes went.
pub open spec fn places(trials: Seq<Trial>) -> Seq<(u32, u8)> {
    Seq::new(trials.len(), |i: int| (trials[i].baud, trials[i].slave_id))
}

/// Where the probes went that were answered.
pub open spec fn heard(trials: Seq<Trial>) -> Seq<(u32, u8)>
    decreases trials.len(),
{
    if trials.len() == 0 {
        Seq::empty()
    } else {
        let before = heard(trials.drop_last());
        if trials.last().heard {
            before.push((trials.last().baud, trials.last().slave_id))
        } else {
            before
        }
    }
}

/// Where devices were found.
pub open spec fn sites(devices: Seq<Device>) -> Seq<(u32, u8)> {
    Seq::new(devices.len(), |i: int| (devices[i].baud_rate, devices[i].slave_id))
}

/// What holds of a scan under way, given the probes that have ended and the baud rates that
/// could be set.
spec fn under_way(
    plan: ScanPlanView,
    scan: ScanView,
    trials: Seq<Trial>,
    settings: Seq<bool>,
) -> bool {
    let rates = usable(plan.baud_rates, settings);
    let first = plan.slave_id_start;
    let last = plan.slave_id_end;
    let done = sweep(rates.drop_last(), first, last);
    &&& scan.plan == plan
    &&& scan.next_rate <= plan.baud_rates.len()
    &&& settings.len() == scan.next_rate - (if scan.phase is SetBaud {
        1int
    } else {
        0
    })
    &&& match scan.phase {
        ScanPhaseView::SetBaud => {
            &&& scan.baud == plan.baud_rates[scan.next_rate - 1]
            &&& places(trials) == sweep(rates, first, last)
        },
        ScanPhaseView::SetTimeout => {
            &&& rates.len() > 0
            &&& rates.last() == scan.baud
            &&& places(trials) == done
        },
        ScanPhaseView::RestoreBaud | ScanPhaseView::RestoreTimeout => {
            &&& scan.next_rate == plan.baud_rates.len()
            &&& places(trials) == sweep(rates, first, last)
        },
        ScanPhaseView::DrainFound
        | ScanPhaseView::Survey(_)
        | ScanPhaseView::DrainMissed => {
            &&& rates.len() > 0
            &&& rates.last() == scan.baud
            &&& first <= scan.slave_id <= last
            &&& places(trials) == done + row(scan.baud, first as int, scan.slave_id + 1)
        },
        _ => {
            &&& rates.len() > 0
            &&& rates.last() == scan.baud
            &&& first <= scan.slave_id <= last
            &&& places(trials) == done + row(scan.baud, first as int, scan.slave_id as int)
        },
    }
    &&& if scan.phase is DrainFound || scan.phase is Survey {
        heard(trials) == sites(scan.discovered).push((scan.baud, scan.slave_id))
    } else {
        heard(trials) == sites(scan.discovered)
    }
}

/// What holds of a scan that has come to the next slave id.
proof fn lemma_next_slave(
    plan: ScanPlanView,
    scan: ScanView,
    trials: Seq<Trial>,
    settings: Seq<bool>,
)
    requires
        scan.plan == plan,
        scan.next_rate <= plan.baud_rates.len(),
        settings.len() == scan.next_rate,
        ({
            let rates = usable(plan.baud_rates, settings);
            let first = plan.slave_id_start;
            let last = plan.slave_id_end;
            &&& rates.len() > 0
            &&& rates.last() == scan.baud
            &&& first <= scan.slave_id <= last
            &&& places(trials) == sweep(rates.drop_last(), first, last) + row(
                scan.baud,
                first as int,
                scan.slave_id + 1,
            )
        }),
        heard(trials) == sites(scan.discovered),
    ensures
        under_way(plan, scan.next_slave(), trials, settings),
{
}

/// One step of a scan keeps what holds of it.
proof fn lemma_step(
    plan: ScanPlanView,
    scan: ScanView,
    trials: Seq<Trial>,
    settings: Seq<bool>,
    event: EventView,
)
    requires
        under_way(plan, scan, trials, settings),
    ensures
        ({
            let trials2 = match trial(scan, event) {
                Some(ended) => trials.push(ended),
                None => trials,
            };
            let settings2 = if scan.phase is SetBaud {
                settings.push(event is Done)
            } else {
                settings
            };
            match scan.next(event) {
                ScanNextView::Running(next) => under_way(plan, next, trials2, settings2),
                ScanNextView::Finished(discovered) => {
                    &&& discovered == scan.discovered
                    &&& scan.phase is RestoreTimeout
                },
                ScanNextView::Aborted => true,
            }
        }),
{
    let rates = usable(plan.baud_rates, settings);
    let first = plan.slave_id_start;
    let last = plan.slave_id_end;
    let done = sweep(rates.drop_last(), first, last);
    if let Some(ended) = trial(scan, event) {
        let trials2 = trials.push(ended);
        assert(trials2.drop_last() =~= trials);
        assert(places(trials2) =~= places(trials).push((scan.baud, scan.slave_id)));
        assert(row(scan.baud, first as int, scan.slave_id + 1) =~= row(
            scan.baud,
            first as int,
            scan.slave_id as int,
        ).push((scan.baud, scan.slave_id)));
        assert(places(trials2) =~= done + row(scan.baud, first as int, scan.slave_id + 1));
        if scan.phase is Write {
            lemma_next_slave(plan, scan, trials2, settings);
        }
    }
    match scan.phase {
        ScanPhaseView::SetBaud => {
            let settings2 = settings.push(event is Done);
            assert(settings2.drop_last() =~= settings);
            if event is Done {
                let rates2 = usable(plan.baud_rates, settings2);
                assert(rates2.drop_last() =~= rates);
            }
        },
        ScanPhaseView::SetTimeout => {
            if first <= last {
                assert(row(scan.baud, first as int, first as int) =~= Seq::<(u32, u8)>::empty());
                assert(done + row(scan.baud, first as int, first as int) =~= done);
            } else {
                assert(row(scan.baud, first as int, last + 1) =~= Seq::<(u32, u8)>::empty());
                assert(sweep(rates, first, last) =~= done);
            }
        },
        ScanPhaseView::Survey(survey) => {
            match survey.next(event) {
                CapabilityNextView::Finished(caps) => {
                    let device = Device { slave_id: scan.slave_id, baud_rate: scan.baud, caps };
                    assert(sites(scan.found(device).discovered) =~= sites(scan.discovered).push(
                        (scan.baud, scan.slave_id),
                    ));
                    lemma_next_slave(plan, scan.found(device), trials, settings);
                },
                _ => {},
            }
        },
        ScanPhaseView::DrainMissed => {
            lemma_next_slave(plan, scan, trials, settings);
        },
        _ => {},
    }
}

proof fn lemma_run(plan: ScanPlanView, events: Seq<EventView>)
    ensures
        ({
            let start = ScanView::start(plan);
            let ended = trials(start, events);
            let set = settings(start, events);
            match run(start, events) {
                ScanNextView::Running(scan) => under_way(plan, scan, ended, set),
                ScanNextView::Finished(discovered) => {
                    &&& set.len() == plan.baud_rates.len()
                    &&& places(ended) == sweep(
                        usable(plan.baud_rates, set),
                        plan.slave_id_start,
                        plan.slave_id_end,
                    )
                    &&& sites(discovered) == heard(ended)
                },
                ScanNextView::Aborted => true,
            }
        }),
    decreases events.len(),
{
    let start = ScanView::start(plan);
    if events.len() == 0 {
        assert(places(Seq::empty()) =~= Seq::<(u32, u8)>::empty());
        assert(sites(Seq::empty()) =~= Seq::<(u32, u8)>::empty());
        assert(usable(plan.baud_rates, Seq::empty()) =~= Seq::<u32>::empty());
    } else {
        let before = events.drop_last();
        lemma_run(plan, before);
        if let ScanNextView::Running(scan) = run(start, before) {
            lemma_step(plan, scan, trials(start, before), settings(start, before), events.last());
        }
    }
}

/// A scan probes every slave id of the range at every baud rate that can be set, once and in
/// order, and finds a device exactly where a probe was answered.
pub proof fn law_scan_is_complete(
    plan: ScanPlanView,
    events: Seq<EventView>,
    discovered: Seq<Device>,
)
    requires
        run(ScanView::start(plan), events) == ScanNextView::Finished(discovered),
    ensures
        ({
            let ended = trials(ScanView::start(plan), events);
            let set = settings(ScanView::start(plan), events);
            &&& set.len() == plan.baud_rates.len()
            &&& places(ended) == sweep(
                usable(plan.baud_rates, set),
                plan.slave_id_start,
                plan.slave_id_end,
            )
            &&& sites(discovered) == heard(ended)
        }),
{
    lemma_run(plan, events);
}

/// The last things that a scan does are to set the normal baud rate and the normal timeout.
pub proof fn law_scan_restores_the_port(plan: ScanPlanView, events: Seq<EventView>)
    requires
        run(ScanView::start(plan), events) is Finished,
        !(run(ScanView::start(plan), events.drop_last()) is Finished),
    ensures
        events.len() >= 2,
        run(ScanView::start(plan), events.take(events.len() - 2)) is Running,
        run(ScanView::start(plan), events.take(events.len() - 2))->Running_0.action()
            == ActionView::SetBaudRate(plan.restore_baud),
        run(ScanView::start(plan), events.take(events.len() - 1)) is Running,
        run(ScanView::start(plan), events.take(events.len() - 1))->Running_0.action()
            == ActionView::SetTimeout(plan.restore_timeout),
{
    let start = ScanView::start(plan);
    let before = events.drop_last();
    assert(events.take(events.len() - 1) =~= before);
    lemma_run(plan, before);
    assert(run(start, before)->Running_0.phase is RestoreTimeout);
    assert(before.len() > 0);
    assert(events.take(events.len() - 2) =~= before.drop_last());
    lemma_run(plan, before.drop_last());
}

/// What every scan under way keeps to: its probes ask the slave id in turn for its first coil, and
/// its surveys go to that slave id.
spec fn sane(scan: ScanView) -> bool {
    &&& match scan.phase {
        ScanPhaseView::Write(sent) => sent == frame::sealed(
            frame::word_request(scan.slave_id, READ_COILS, 0, 1),
        ),
        ScanPhaseView::Survey(survey) => {
            &&& survey.probe.slave_id == scan.slave_id
            &&& probe::under_way(survey)
        },
        _ => true,
    }
    &&& forall|i: int|
        0 <= i < scan.discovered.len() ==> probe::surveyed((#[trigger] scan.discovered[i]).caps)
}

proof fn lemma_sane(plan: ScanPlanView, events: Seq<EventView>)
    ensures
        match run(ScanView::start(plan), events) {
            ScanNextView::Running(scan) => sane(scan),
            ScanNextView::Finished(discovered) => forall|i: int|
                0 <= i < discovered.len() ==> probe::surveyed((#[trigger] discovered[i]).caps),
            ScanNextView::Aborted => true,
        },
    decreases events.len(),
{
    if events.len() > 0 {
        lemma_sane(plan, events.drop_last());
    }
}

/// A probe for a device asks for the first coil of the slave id in turn.
pub proof fn law_probes_ask_for_one_coil(
    plan: ScanPlanView,
    events: Seq<EventView>,
    scan: ScanView,
    sent: Seq<u8>,
)
    requires
        run(ScanView::start(plan), events) == ScanNextView::Running(scan),
        scan.phase == ScanPhaseView::Write(sent),
    ensures
        sent == frame::sealed(frame::word_request(scan.slave_id, READ_COILS, 0, 1)),
{
    lemma_sane(plan, events);
}

/// Of each kind of item, a device that a scan finds is said to serve either none or exactly the
/// number that was asked for.
pub proof fn law_devices_are_surveyed(
    plan: ScanPlanView,
    events: Seq<EventView>,
    discovered: Seq<Device>,
    i: int,
)
    requires
        run(ScanView::start(plan), events) == ScanNextView::Finished(discovered),
        0 <= i < discovered.len(),
    ensures
        probe::surveyed(discovered[i].caps),
{
    lemma_sane(plan, events);
    assert(run(ScanView::start(plan), events)->Finished_0[i] == discovered[i]);
}

/// An upper bound on the actions that a scan takes if no command comes in between: two to set the
/// port at the end, and for each baud rate two to set the port and 28 for each of 256 slave ids.
pub open spec fn scan_bound(plan: ScanPlanView) -> nat {
    2 + plan.baud_rates.len() * 7170
}

/// An upper bound on the actions that a survey has before it.
spec fn survey_rank(survey: CapabilityProbeView) -> nat {
    let kinds: nat = match survey.survey {
        Survey::Coils => 3,
        Survey::DiscreteInputs { .. } => 2,
        Survey::HoldingRegisters { .. } => 1,
        Survey::InputRegisters { .. } => 0,
    };
    let actions: nat = match survey.probe.phase {
        ProbePhaseView::Clear => 5,
        ProbePhaseView::Write(_) => 4,
        ProbePhaseView::Flush => 3,
        ProbePhaseView::Read => 2,
        ProbePhaseView::Drain { .. } => 1,
    };
    5 * kinds + actions
}

/// An upper bound on the actions that a scan has before it if no command comes in between.
spec fn rank(scan: ScanView) -> int {
    let rates = 2 + (scan.plan.baud_rates.len() - scan.next_rate) * 7170;
    let slaves = (scan.plan.slave_id_end - scan.slave_id) * 28;
    match scan.phase {
        ScanPhaseView::SetBaud => rates + 7170,
        ScanPhaseView::SetTimeout => rates + 7169,
        ScanPhaseView::Service(_) => rates + slaves + 28,
        ScanPhaseView::ResumeBaud => rates + slaves + 27,
        ScanPhaseView::ResumeTimeout => rates + slaves + 26,
        ScanPhaseView::Clear => rates + slaves + 25,
        ScanPhaseView::Write(_) => rates + slaves + 24,
        ScanPhaseView::Flush => rates + slaves + 23,
        ScanPhaseView::Read => rates + slaves + 22,
        ScanPhaseView::DrainFound => rates + slaves + 21,
        ScanPhaseView::Survey(survey) => rates + slaves + survey_rank(survey),
        ScanPhaseView::DrainMissed => rates + slaves + 1,
        ScanPhaseView::RestoreBaud => 2,
        ScanPhaseView::RestoreTimeout => 1,
    }
}

/// Whether a scan is at work on its own, and at a slave id of its range.
spec fn undisturbed(scan: ScanView) -> bool {
    &&& scan.next_rate <= scan.plan.baud_rates.len()
    &&& match scan.phase {
        ScanPhaseView::SetBaud
        | ScanPhaseView::SetTimeout
        | ScanPhaseView::RestoreBaud
        | ScanPhaseView::RestoreTimeout => true,
        ScanPhaseView::Service(service) => {
            &&& service.phase is Poll
            &&& scan.slave_id <= scan.plan.slave_id_end
        },
        _ => scan.slave_id <= scan.plan.slave_id_end,
    }
}

proof fn lemma_rank_step(scan: ScanView, event: EventView)
    requires
        undisturbed(scan),
        !(event is Command),
    ensures
        match scan.next(event) {
            ScanNextView::Running(next) => undisturbed(next) && rank(next) < rank(scan),
            ScanNextView::Finished(_) => true,
            ScanNextView::Aborted => false,
        },
        rank(scan) >= 1,
{
}

proof fn lemma_rank(plan: ScanPlanView, events: Seq<EventView>)
    requires
        forall|i: int| 0 <= i < events.len() ==> !(#[trigger] events[i] is Command),
    ensures
        match run(ScanView::start(plan), events) {
            ScanNextView::Running(scan) => undisturbed(scan) && rank(scan) + events.len()
                <= scan_bound(plan),
            ScanNextView::Finished(_) => true,
            ScanNextView::Aborted => false,
        },
    decreases events.len(),
{
    if events.len() > 0 {
        let before = events.drop_last();
        assert forall|i: int| 0 <= i < before.len() implies !(#[trigger] before[i] is Command) by {
            assert(before[i] == events[i]);
        }
        lemma_rank(plan, before);
        assert(events.last() == events[events.len() - 1]);
        if let ScanNextView::Running(scan) = run(ScanView::start(plan), before) {
            lemma_rank_step(scan, events.last());
        }
    }
}

/// A scan ends, whatever the port does, if no command comes in between.
pub proof fn law_scan_ends(plan: ScanPlanView, events: Seq<EventView>)
    requires
        events.len() >= scan_bound(plan),
        forall|i: int| 0 <= i < events.len() ==> !(#[trigger] events[i] is Command),
    ensures
        run(ScanView::start(plan), events) is Finished,
{
    lemma_rank(plan, events);
    if let ScanNextView::Running(scan) = run(ScanView::start(plan), events) {
        lemma_rank_step(scan, EventView::Done);
    }
}

/// A sweep of two lists of baud rates is the sweep of the first and then that of the second.
pub proof fn law_sweeps_follow_each_other(a: Seq<u32>, b: Seq<u32>, start: u8, end: u8)
    ensures
        sweep(a + b, start, end) == sweep(a, start, end) + sweep(b, start, end),
    decreases b.len(),
{
    if b.len() == 0 {
        assert(a + b =~= a);
        assert(sweep(a, start, end) + sweep(b, start, end) =~= sweep(a, start, end));
    } else {
        assert((a + b).drop_last() =~= a + b.drop_last());
        law_sweeps_follow_each_other(a, b.drop_last(), start, end);
        assert(sweep(a + b, start, end) =~= sweep(a, start, end) + sweep(b, start, end));
    }
}

/// What is heard of two rows of probes is what is heard of the first and then of the second.
pub proof fn law_hearings_follow_each_other(a: Seq<Trial>, b: Seq<Trial>)
    ensures
        heard(a + b) == heard(a) + heard(b),
    decreases b.len(),
{
    if b.len() == 0 {
        assert(a + b =~= a);
        assert(heard(a) + heard(b) =~= heard(a));
    } else {
        assert((a + b).drop_last() =~= a + b.drop_last());
        law_hearings_follow_each_other(a, b.drop_last());
        assert(heard(a + b) =~= heard(a) + heard(b));
    }
}

/// When the survey that is under way began, counted in events; 0 where none is under way.
pub open spec fn began(start: ScanView, events: Seq<EventView>) -> nat
    decreases events.len(),
{
    if events.len() == 0 {
        0
    } else {
        match run(start, events.drop_last()) {
            ScanNextView::Running(scan) => match scan.phase {
                ScanPhaseView::DrainFound => events.len(),
                ScanPhaseView::Survey(_) => began(start, events.drop_last()),
                _ => 0,
            },
            _ => 0,
        }
    }
}

/// When each survey that has ended began and ended, counted in events, in order.
pub open spec fn spans(start: ScanView, events: Seq<EventView>) -> Seq<(nat, nat)>
    decreases events.len(),
{
    if events.len() == 0 {
        Seq::empty()
    } else {
        let before = spans(start, events.drop_last());
        match run(start, events.drop_last()) {
            ScanNextView::Running(scan) => match scan.phase {
                ScanPhaseView::Survey(survey) => if survey.next(events.last()) is Finished {
                    before.push((began(start, events.drop_last()), events.len()))
                } else {
                    before
                },
                _ => before,
            },
            _ => before,
        }
    }
}

/// Whether a device is as the survey of it told: one that began after `span.0` events, at the
/// baud rate and the slave id of the device, and had come to an end after `span.1`.
pub open spec fn told(
    start: ScanView,
    events: Seq<EventView>,
    device: Device,
    span: (nat, nat),
) -> bool {
    &&& span.0 <= span.1 <= events.len()
    &&& match run(start, events.take(span.0 as int)) {
        ScanNextView::Running(scan) => {
            &&& scan.phase == ScanPhaseView::Survey(CapabilityProbeView::start(device.slave_id))
            &&& scan.slave_id == device.slave_id
            &&& scan.baud == device.baud_rate
        },
        _ => false,
    }
    &&& probe::survey(
        CapabilityProbeView::start(device.slave_id),
        events.subrange(span.0 as int, span.1 as int),
    ) == CapabilityNextView::Finished(device.caps)
}

/// Whether all devices are as the surveys of them told.
spec fn all_told(
    start: ScanView,
    events: Seq<EventView>,
    devices: Seq<Device>,
    spans: Seq<(nat, nat)>,
) -> bool {
    &&& devices.len() == spans.len()
    &&& forall|i: int|
        0 <= i < devices.len() ==> told(start, events, #[trigger] devices[i], spans[i])
}

/// Whether a survey under way is where its events have brought it.
spec fn surveying(start: ScanView, events: Seq<EventView>, scan: ScanView) -> bool {
    match scan.phase {
        ScanPhaseView::Survey(survey) => {
            let from = began(start, events);
            &&& from <= events.len()
            &&& match run(start, events.take(from as int)) {
                ScanNextView::Running(then) => {
                    &&& then.phase == ScanPhaseView::Survey(
                        CapabilityProbeView::start(scan.slave_id),
                    )
                    &&& then.slave_id == scan.slave_id
                    &&& then.baud == scan.baud
                },
                _ => false,
            }
            &&& probe::survey(
                CapabilityProbeView::start(scan.slave_id),
                events.skip(from as int),
            ) == CapabilityNextView::Running(survey)
        },
        _ => true,
    }
}

/// What was told stays told.
proof fn lemma_told_stays(
    start: ScanView,
    events: Seq<EventView>,
    devices: Seq<Device>,
    spans: Seq<(nat, nat)>,
)
    requires
        events.len() > 0,
        all_told(start, events.drop_last(), devices, spans),
    ensures
        all_told(start, events, devices, spans),
{
    let before = events.drop_last();
    assert forall|i: int| 0 <= i < devices.len() implies told(
        start,
        events,
        #[trigger] devices[i],
        spans[i],
    ) by {
        let from = spans[i].0 as int;
        let to = spans[i].1 as int;
        assert(told(start, before, devices[i], spans[i]));
        assert(events.take(from) =~= before.take(from));
        assert(events.subrange(from, to) =~= before.subrange(from, to));
    }
}

/// One more event of a survey that is under way.
proof fn lemma_surveying_step(start: ScanView, events: Seq<EventView>, scan: ScanView)
    requires
        events.len() > 0,
        run(start, events.drop_last()) == ScanNextView::Running(scan),
        scan.phase is Survey,
        surveying(start, events.drop_last(), scan),
    ensures
        ({
            let from = began(start, events.drop_last()) as int;
            &&& from < events.len()
            &&& events.take(from) == events.drop_last().take(from)
            &&& probe::survey(CapabilityProbeView::start(scan.slave_id), events.skip(from))
                == scan.phase->Survey_0.next(events.last())
            &&& began(start, events) == from
        }),
{
    let before = events.drop_last();
    let from = began(start, before) as int;
    assert(events.take(from) =~= before.take(from));
    assert(events.skip(from).drop_last() =~= before.skip(from));
    assert(events.skip(from).last() == events.last());
}

proof fn lemma_told(plan: ScanPlanView, events: Seq<EventView>)
    ensures
        ({
            let start = ScanView::start(plan);
            match run(start, events) {
                ScanNextView::Running(scan) => {
                    &&& surveying(start, events, scan)
                    &&& all_told(start, events, scan.discovered, spans(start, events))
                },
                ScanNextView::Finished(discovered) => all_told(
                    start,
                    events,
                    discovered,
                    spans(start, events),
                ),
                ScanNextView::Aborted => true,
            }
        }),
    decreases events.len(),
{
    let start = ScanView::start(plan);
    if events.len() > 0 {
        let before = events.drop_last();
        lemma_told(plan, before);
        match run(start, before) {
            ScanNextView::Running(scan) => {
                lemma_told_stays(start, events, scan.discovered, spans(start, before));
                match scan.phase {
                    ScanPhaseView::Survey(survey) => {
                        lemma_surveying_step(start, events, scan);
                        if let CapabilityNextView::Finished(caps) = survey.next(events.last()) {
                            let device = Device {
                                slave_id: scan.slave_id,
                                baud_rate: scan.baud,
                                caps,
                            };
                            let from = began(start, before);
                            assert(events.subrange(from as int, events.len() as int)
                                =~= events.skip(from as int));
                            assert(told(start, events, device, (from, events.len())));
                        }
                    },
                    ScanPhaseView::DrainFound => {
                        assert(events.take(events.len() as int) =~= events);
                        assert(events.skip(events.len() as int) =~= Seq::<EventView>::empty());
                    },
                    _ => {},
                }
            },
            ScanNextView::Finished(discovered) => {
                lemma_told_stays(start, events, discovered, spans(start, before));
            },
            ScanNextView::Aborted => {},
        }
    }
}

/// Each device that a scan finds was surveyed at its baud rate and slave id, and its capabilities
/// are what that survey gave.
pub proof fn law_capabilities_are_those_surveyed(
    plan: ScanPlanView,
    events: Seq<EventView>,
    discovered: Seq<Device>,
    i: int,
)
    requires
        run(ScanView::start(plan), events) == ScanNextView::Finished(discovered),
        0 <= i < discovered.len(),
    ensures
        spans(ScanView::start(plan), events).len() == discovered.len(),
        told(
            ScanView::start(plan),
            events,
            discovered[i],
            spans(ScanView::start(plan), events)[i],
        ),
{
    lemma_told(plan, events);
    assert(run(ScanView::start(plan), events)->Finished_0[i] == discovered[i]);
}

/// How many slave ids there are from `start` to `end`.
pub open spec fn ids(start: u8, end: u8) -> nat {
    if start <= end {
        (end - start + 1) as nat
    } else {
        0
    }
}

proof fn lemma_sweep_len(rates: Seq<u32>, start: u8, end: u8)
    ensures
        sweep(rates, start, end).len() == rates.len() * ids(start, end),
    decreases rates.len(),
{
    let n = rates.len() as int;
    let width = ids(start, end) as int;
    if rates.len() == 0 {
        assert(0 * width == 0);
    } else {
        lemma_sweep_len(rates.drop_last(), start, end);
        assert((n - 1) * width + width == n * width) by (nonlinear_arith);
    }
}

proof fn lemma_usable_len(rates: Seq<u32>, settings: Seq<bool>)
    ensures
        usable(rates, settings).len() <= settings.len(),
    decreases settings.len(),
{
    if settings.len() > 0 {
        lemma_usable_len(rates, settings.drop_last());
    }
}

proof fn lemma_heard_len(trials: Seq<Trial>)
    ensures
        heard(trials).len() <= trials.len(),
    decreases trials.len(),
{
    if trials.len() > 0 {
        lemma_heard_len(trials.drop_last());
    }
}

/// A scan finds at most one device for each baud rate in the list and each slave id of the range.
pub proof fn law_scan_finds_no_more(
    plan: ScanPlanView,
    events: Seq<EventView>,
    discovered: Seq<Device>,
)
    requires
        run(ScanView::start(plan), events) == ScanNextView::Finished(discovered),
    ensures
        discovered.len() <= plan.baud_rates.len() * ids(plan.slave_id_start, plan.slave_id_end),
{
    let ended = trials(ScanView::start(plan), events);
    let set = settings(ScanView::start(plan), events);
    let rates = usable(plan.baud_rates, set);
    law_scan_is_complete(plan, events, discovered);
    lemma_heard_len(ended);
    lemma_usable_len(plan.baud_rates, set);
    lemma_sweep_len(rates, plan.slave_id_start, plan.slave_id_end);
    assert(sites(discovered).len() == discovered.len());
    assert(places(ended).len() == ended.len());
    let m = rates.len() as int;
    let n = plan.baud_rates.len() as int;
    let width = ids(plan.slave_id_start, plan.slave_id_end) as int;
    assert(m * width <= n * width) by (nonlinear_arith)
        requires
            m <= n,
            width >= 0,
    ;
}

} // verus!
