//! What holds of a probe from start to end.

use crate::data::Capabilities;
use crate::frame::{
    READ_COILS, READ_DISCRETE_INPUTS, READ_HOLDING_REGISTERS, READ_INPUT_REGISTERS,
};
use crate::port::EventView;
use crate::probe::{
    CapabilityNextView, CapabilityProbeView, ProbeNextView, ProbeView, Survey, PROBED_BITS,
    PROBED_REGISTERS,
};
use vstd::prelude::*;

verus! {

/// What a probe comes to when its actions are answered by `events`, one after the other.
pub open spec fn run(start: ProbeView, events: Seq<EventView>) -> ProbeNextView
    decreases events.len(),
{
    if events.len() == 0 {
        ProbeNextView::Running(start)
    } else {
        match run(start, events.drop_last()) {
            ProbeNextView::Running(probe) => probe.next(events.last()),
            ended => ended,
        }
    }
}

/// What a probe for `count` items finds, told from the answers to its write and its read.
pub open spec fn found(func: u8, count: u16, write: EventView, read: EventView) -> u16 {
    match read.bytes(3) {
        Some(header) => if write is Done && header[1] == func {
            count
        } else {
            0
        },
        None => 0,
    }
}

/// A probe gives the number of items that were asked for where the request was written and the
/// answer repeats its function code, and 0 otherwise: where nothing was written, nothing came
/// back, or an exception did.
pub proof fn law_probe_ending(slave_id: u8, func: u8, count: u16, events: Seq<EventView>)
    requires
        1 <= func <= 4,
        events.len() == 5,
    ensures
        run(ProbeView::start(slave_id, func, count), events) == ProbeNextView::Finished(
            found(func, count, events[1], events[3]),
        ),
{
    reveal_with_fuel(run, 6);
}

/// A function code that does not read finds nothing.
pub proof fn law_unknown_probe_finds_nothing(
    slave_id: u8,
    func: u8,
    count: u16,
    cleared: EventView,
)
    requires
        !(1 <= func <= 4),
    ensures
        run(ProbeView::start(slave_id, func, count), seq![cleared]) == ProbeNextView::Finished(0),
{
    reveal_with_fuel(run, 2);
}

/// What a survey comes to when its actions are answered by `events`, one after the other.
pub open spec fn survey(start: CapabilityProbeView, events: Seq<EventView>) -> CapabilityNextView
    decreases events.len(),
{
    if events.len() == 0 {
        CapabilityNextView::Running(start)
    } else {
        match survey(start, events.drop_last()) {
            CapabilityNextView::Running(probe) => probe.next(events.last()),
            ended => ended,
        }
    }
}

/// Whether a number of items is one that a probe for `asked` items can give.
pub open spec fn all_or_nothing(found: u16, asked: u16) -> bool {
    found == 0 || found == asked
}

/// Whether capabilities are such that a survey can give them.
pub open spec fn surveyed(caps: Capabilities) -> bool {
    &&& all_or_nothing(caps.coils, PROBED_BITS)
    &&& all_or_nothing(caps.discrete_inputs, PROBED_BITS)
    &&& all_or_nothing(caps.holding_registers, PROBED_REGISTERS)
    &&& all_or_nothing(caps.input_registers, PROBED_REGISTERS)
}

/// Whether a survey under way is as it can be.
pub open spec fn under_way(probe: CapabilityProbeView) -> bool {
    &&& probe.probe.func == probe.survey.func()
    &&& probe.probe.count == probe.survey.count()
    &&& match probe.survey {
        Survey::Coils => true,
        Survey::DiscreteInputs { coils } => all_or_nothing(coils, PROBED_BITS),
        Survey::HoldingRegisters { coils, discrete_inputs } => {
            &&& all_or_nothing(coils, PROBED_BITS)
            &&& all_or_nothing(discrete_inputs, PROBED_BITS)
        },
        Survey::InputRegisters { coils, discrete_inputs, holding_registers } => {
            &&& all_or_nothing(coils, PROBED_BITS)
            &&& all_or_nothing(discrete_inputs, PROBED_BITS)
            &&& all_or_nothing(holding_registers, PROBED_REGISTERS)
        },
    }
}

proof fn lemma_survey(slave_id: u8, events: Seq<EventView>)
    ensures
        match survey(CapabilityProbeView::start(slave_id), events) {
            CapabilityNextView::Running(probe) => under_way(probe),
            CapabilityNextView::Finished(caps) => surveyed(caps),
        },
    decreases events.len(),
{
    if events.len() > 0 {
        lemma_survey(slave_id, events.drop_last());
    }
}

/// Of each kind of item a survey gives either none or exactly the number that was asked for.
pub proof fn law_capabilities_are_all_or_nothing(
    slave_id: u8,
    events: Seq<EventView>,
    caps: Capabilities,
)
    requires
        survey(CapabilityProbeView::start(slave_id), events) == CapabilityNextView::Finished(caps),
    ensures
        surveyed(caps),
{
    lemma_survey(slave_id, events);
}

/// Going on with a survey is the same as taking all of its events at once.
proof fn lemma_survey_parts(
    start: CapabilityProbeView,
    front: Seq<EventView>,
    back: Seq<EventView>,
)
    requires
        survey(start, front) is Running,
    ensures
        survey(start, front + back) == survey(survey(start, front)->Running_0, back),
    decreases back.len(),
{
    if back.len() == 0 {
        assert(front + back =~= front);
    } else {
        assert((front + back).drop_last() =~= front + back.drop_last());
        lemma_survey_parts(start, front, back.drop_last());
    }
}

/// Whether these are the answers to the actions that a survey takes for one kind of item: two
/// where the request cannot be written, and else five.
pub open spec fn stretch(events: Seq<EventView>) -> bool {
    if events.len() == 2 {
        !(events[1] is Done)
    } else {
        events.len() == 5 && events[1] is Done
    }
}

/// What a survey finds of one kind of item, told from the answers to its actions.
pub open spec fn counted(kind: Survey, events: Seq<EventView>) -> u16 {
    if events.len() == 2 {
        0
    } else {
        found(kind.func(), kind.count(), events[1], events[3])
    }
}

/// A survey takes five actions for a kind of item, finds what the answer shows, and goes on. Where
/// the request for that kind cannot be written it takes two, finds nothing of that kind, and goes
/// on all the same.
pub proof fn law_survey_goes_on(slave_id: u8, kind: Survey, events: Seq<EventView>)
    requires
        stretch(events),
    ensures
        survey(CapabilityProbeView::at(slave_id, kind), events) == CapabilityProbeView::at(
            slave_id,
            kind,
        ).learn(counted(kind, events)),
{
    reveal_with_fuel(survey, 6);
}

/// A survey tells, for each kind of item, whether the request for it could be written and the
/// device answered with the function code of that request, whatever became of the other kinds.
pub proof fn law_survey_ending(
    slave_id: u8,
    first: Seq<EventView>,
    second: Seq<EventView>,
    third: Seq<EventView>,
    fourth: Seq<EventView>,
)
    requires
        stretch(first),
        stretch(second),
        stretch(third),
        stretch(fourth),
    ensures
        survey(CapabilityProbeView::start(slave_id), first + second + third + fourth)
            == CapabilityNextView::Finished(
            Capabilities {
                coils: if first.len() == 2 {
                    0
                } else {
                    found(READ_COILS, PROBED_BITS, first[1], first[3])
                },
                discrete_inputs: if second.len() == 2 {
                    0
                } else {
                    found(READ_DISCRETE_INPUTS, PROBED_BITS, second[1], second[3])
                },
                holding_registers: if third.len() == 2 {
                    0
                } else {
                    found(READ_HOLDING_REGISTERS, PROBED_REGISTERS, third[1], third[3])
                },
                input_registers: if fourth.len() == 2 {
                    0
                } else {
                    found(READ_INPUT_REGISTERS, PROBED_REGISTERS, fourth[1], fourth[3])
                },
            },
        ),
{
    let start = CapabilityProbeView::start(slave_id);
    let coils = counted(Survey::Coils, first);
    let discrete_inputs = counted(Survey::DiscreteInputs { coils }, second);
    let holding_registers = counted(Survey::HoldingRegisters { coils, discrete_inputs }, third);
    law_survey_goes_on(slave_id, Survey::Coils, first);
    law_survey_goes_on(slave_id, Survey::DiscreteInputs { coils }, second);
    law_survey_goes_on(slave_id, Survey::HoldingRegisters { coils, discrete_inputs }, third);
    law_survey_goes_on(
        slave_id,
        Survey::InputRegisters { coils, discrete_inputs, holding_registers },
        fourth,
    );
    lemma_survey_parts(start, first, second);
    lemma_survey_parts(start, first + second, third);
    lemma_survey_parts(start, first + second + third, fourth);
}

} // verus!
