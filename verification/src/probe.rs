//! Finding out what a device serves.

use crate::data::Capabilities;
use crate::frame;
use crate::frame::{
    READ_COILS, READ_DISCRETE_INPUTS, READ_HOLDING_REGISTERS, READ_INPUT_REGISTERS,
};
use crate::port::{Action, ActionView, Event, EventView};
use vstd::prelude::*;

verus! {

/// How many coils, and how many discrete inputs, are asked for.
pub const PROBED_BITS: u16 = 8;

/// How many holding registers, and how many input registers, are asked for.
pub const PROBED_REGISTERS: u16 = 4;

/// The request that reads `count` items from address 0; `None` where `func` does not read.
pub open spec fn probe_frame(slave_id: u8, func: u8, count: u16) -> Option<Seq<u8>> {
    if 1 <= func <= 4 {
        Some(frame::sealed(frame::word_request(slave_id, func, 0, count)))
    } else {
        None
    }
}

/// Builds the request that reads `count` items from address 0.
pub(crate) fn build_probe(slave_id: u8, func: u8, count: u16) -> (r: Option<Vec<u8>>)
    ensures
        match r {
            Some(request) => probe_frame(slave_id, func, count) == Some(request@),
            None => probe_frame(slave_id, func, count) is None,
        },
{
    let request: Result<Vec<u8>, String> = match func {
        READ_COILS => frame::generate_get_coils(slave_id, 0, count),
        READ_DISCRETE_INPUTS => frame::generate_get_discretes(slave_id, 0, count),
        READ_HOLDING_REGISTERS => frame::generate_get_holdings(slave_id, 0, count),
        READ_INPUT_REGISTERS => frame::generate_get_inputs(slave_id, 0, count),
        _ => return None,
    };
    match request {
        Ok(request) => Some(request),
        Err(_) => None,
    }
}

/// How far a single probe has come.
#[derive(Debug)]
pub enum ProbePhase {
    /// Bytes left over from an earlier exchange are to be dropped.
    Clear,
    /// The request is to be written.
    Write(Vec<u8>),
    /// The request is to leave.
    Flush,
    /// The first bytes of the answer are to be read.
    Read,
    /// The rest of the answer is to be dropped.
    Drain { served: bool },
}

/// A single probe: one read request with one function code.
#[derive(Debug)]
pub struct Probe {
    pub slave_id: u8,
    pub func: u8,
    pub count: u16,
    pub phase: ProbePhase,
}

/// What a probe has come to.
#[derive(Debug)]
pub enum ProbeNext {
    Running(Probe),
    /// How many items the device serves.
    Finished(u16),
}

/// The mathematical content of a [`ProbePhase`].
pub enum ProbePhaseView {
    Clear,
    Write(Seq<u8>),
    Flush,
    Read,
    Drain { served: bool },
}

/// The mathematical content of a [`Probe`].
pub struct ProbeView {
    pub slave_id: u8,
    pub func: u8,
    pub count: u16,
    pub phase: ProbePhaseView,
}

/// The mathematical content of a [`ProbeNext`].
pub enum ProbeNextView {
    Running(ProbeView),
    Finished(u16),
}

impl View for Probe {
    type V = ProbeView;

    open spec fn view(&self) -> ProbeView {
        ProbeView {
            slave_id: self.slave_id,
            func: self.func,
            count: self.count,
            phase: match self.phase {
                ProbePhase::Clear => ProbePhaseView::Clear,
                ProbePhase::Write(request) => ProbePhaseView::Write(request@),
                ProbePhase::Flush => ProbePhaseView::Flush,
                ProbePhase::Read => ProbePhaseView::Read,
                ProbePhase::Drain { served } => ProbePhaseView::Drain { served },
            },
        }
    }
}

impl View for ProbeNext {
    type V = ProbeNextView;

    open spec fn view(&self) -> ProbeNextView {
        match *self {
            ProbeNext::Running(probe) => ProbeNextView::Running(probe@),
            ProbeNext::Finished(found) => ProbeNextView::Finished(found),
        }
    }
}

impl ProbeView {
    /// A probe about to start.
    pub open spec fn start(slave_id: u8, func: u8, count: u16) -> ProbeView {
        ProbeView { slave_id, func, count, phase: ProbePhaseView::Clear }
    }

    /// The same probe in another phase.
    pub open spec fn at(self, phase: ProbePhaseView) -> ProbeNextView {
        ProbeNextView::Running(ProbeView { phase, ..self })
    }

    /// What is to be done next.
    pub open spec fn action(self) -> ActionView {
        match self.phase {
            ProbePhaseView::Clear => ActionView::ClearAll,
            ProbePhaseView::Write(request) => ActionView::Write(request),
            ProbePhaseView::Flush => ActionView::Flush,
            ProbePhaseView::Read => ActionView::Read(3),
            ProbePhaseView::Drain { .. } => ActionView::ClearInput,
        }
    }

    /// Whether the answer to the read shows that the device serves the function code.
    pub open spec fn served(self, event: EventView) -> bool {
        match event.bytes(3) {
            Some(header) => header[1] == self.func,
            None => false,
        }
    }

    /// What the probe comes to when the pending action is answered by `event`.
    pub open spec fn next(self, event: EventView) -> ProbeNextView {
        match self.phase {
            ProbePhaseView::Clear => match probe_frame(self.slave_id, self.func, self.count) {
                Some(request) => self.at(ProbePhaseView::Write(request)),
                None => ProbeNextView::Finished(0),
            },
            ProbePhaseView::Write(_) => if event is Done {
                self.at(ProbePhaseView::Flush)
            } else {
                ProbeNextView::Finished(0)
            },
            ProbePhaseView::Flush => self.at(ProbePhaseView::Read),
            ProbePhaseView::Read => self.at(ProbePhaseView::Drain { served: self.served(event) }),
            ProbePhaseView::Drain { served } => ProbeNextView::Finished(
                if served {
                    self.count
                } else {
                    0
                },
            ),
        }
    }
}

/// Starts to probe a device for `count` items of one kind.
///
/// The probe ends with `count` where the device answers with the same function code, and with
/// 0 where it does not answer, or answers with an exception.
pub fn probe_func(slave_id: u8, func: u8, count: u16) -> (probe: Probe)
    ensures
        probe@ == ProbeView::start(slave_id, func, count),
{
    Probe { slave_id, func, count, phase: ProbePhase::Clear }
}

impl Probe {
    /// What is to be done next.
    pub fn action(&self) -> (action: Action<'_>)
        ensures
            action@ == self@.action(),
    {
        match &self.phase {
            ProbePhase::Clear => Action::ClearAll,
            ProbePhase::Write(request) => Action::Write(request),
            ProbePhase::Flush => Action::Flush,
            ProbePhase::Read => Action::Read(3),
            ProbePhase::Drain { .. } => Action::ClearInput,
        }
    }

    /// Takes the answer to the pending action.
    pub fn step(self, event: Event) -> (next: ProbeNext)
        ensures
            next@ == self@.next(event@),
    {
        let Probe { slave_id, func, count, phase } = self;
        let phase: ProbePhase = match phase {
            ProbePhase::Clear => match build_probe(slave_id, func, count) {
                Some(request) => ProbePhase::Write(request),
                None => return ProbeNext::Finished(0),
            },
            ProbePhase::Write(_) => if event.is_done() {
                ProbePhase::Flush
            } else {
                return ProbeNext::Finished(0);
            },
            ProbePhase::Flush => ProbePhase::Read,
            ProbePhase::Read => match event.bytes(3) {
                Some(header) => ProbePhase::Drain { served: header[1] == func },
                None => ProbePhase::Drain { served: false },
            },
            ProbePhase::Drain { served } => return ProbeNext::Finished(
                if served {
                    count
                } else {
                    0
                },
            ),
        };
        ProbeNext::Running(Probe { slave_id, func, count, phase })
    }
}

/// Which kind of item is being probed, with what is known of the kinds before it.
#[derive(Debug, Clone, Copy, PartialEq, Eq, Structural)]
pub enum Survey {
    Coils,
    DiscreteInputs { coils: u16 },
    HoldingRegisters { coils: u16, discrete_inputs: u16 },
    InputRegisters { coils: u16, discrete_inputs: u16, holding_registers: u16 },
}

/// A device under survey: its four kinds of items are probed one after the other.
#[derive(Debug)]
pub struct CapabilityProbe {
    pub survey: Survey,
    pub probe: Probe,
}

/// What a survey has come to.
#[derive(Debug)]
pub enum CapabilityNext {
    Running(CapabilityProbe),
    Finished(Capabilities),
}

/// The mathematical content of a [`CapabilityProbe`].
pub struct CapabilityProbeView {
    pub survey: Survey,
    pub probe: ProbeView,
}

/// The mathematical content of a [`CapabilityNext`].
pub enum CapabilityNextView {
    Running(CapabilityProbeView),
    Finished(Capabilities),
}

impl View for CapabilityProbe {
    type V = CapabilityProbeView;

    open spec fn view(&self) -> CapabilityProbeView {
        CapabilityProbeView { survey: self.survey, probe: self.probe@ }
    }
}

impl View for CapabilityNext {
    type V = CapabilityNextView;

    open spec fn view(&self) -> CapabilityNextView {
        match *self {
            CapabilityNext::Running(probe) => CapabilityNextView::Running(probe@),
            CapabilityNext::Finished(caps) => CapabilityNextView::Finished(caps),
        }
    }
}

impl Survey {
    /// The function code that reads the kind of item being probed.
    pub open spec fn func(self) -> u8 {
        match self {
            Survey::Coils => READ_COILS,
            Survey::DiscreteInputs { .. } => READ_DISCRETE_INPUTS,
            Survey::HoldingRegisters { .. } => READ_HOLDING_REGISTERS,
            Survey::InputRegisters { .. } => READ_INPUT_REGISTERS,
        }
    }

    /// How many items of the kind are asked for.
    pub open spec fn count(self) -> u16 {
        match self {
            Survey::Coils => PROBED_BITS,
            Survey::DiscreteInputs { .. } => PROBED_BITS,
            Survey::HoldingRegisters { .. } => PROBED_REGISTERS,
            Survey::InputRegisters { .. } => PROBED_REGISTERS,
        }
    }
}

impl CapabilityProbeView {
    /// A survey that has come to the given kind of item.
    pub open spec fn at(slave_id: u8, survey: Survey) -> CapabilityProbeView {
        CapabilityProbeView {
            survey,
            probe: ProbeView::start(slave_id, survey.func(), survey.count()),
        }
    }

    /// A survey about to start.
    pub open spec fn start(slave_id: u8) -> CapabilityProbeView {
        CapabilityProbeView::at(slave_id, Survey::Coils)
    }

    /// What is to be done next.
    pub open spec fn action(self) -> ActionView {
        self.probe.action()
    }

    /// What the survey comes to when the probe under way has found `found` items.
    pub open spec fn learn(self, found: u16) -> CapabilityNextView {
        let slave_id = self.probe.slave_id;
        match self.survey {
            Survey::Coils => CapabilityNextView::Running(
                CapabilityProbeView::at(slave_id, Survey::DiscreteInputs { coils: found }),
            ),
            Survey::DiscreteInputs { coils } => CapabilityNextView::Running(
                CapabilityProbeView::at(
                    slave_id,
                    Survey::HoldingRegisters { coils, discrete_inputs: found },
                ),
            ),
            Survey::HoldingRegisters { coils, discrete_inputs } => CapabilityNextView::Running(
                CapabilityProbeView::at(
                    slave_id,
                    Survey::InputRegisters { coils, discrete_inputs, holding_registers: found },
                ),
            ),
            Survey::InputRegisters { coils, discrete_inputs, holding_registers } =>
                CapabilityNextView::Finished(
                Capabilities { coils, discrete_inputs, holding_registers, input_registers: found },
            ),
        }
    }

    /// What the survey comes to when the pending action is answered by `event`.
    pub open spec fn next(self, event: EventView) -> CapabilityNextView {
        match self.probe.next(event) {
            ProbeNextView::Running(probe) => CapabilityNextView::Running(
                CapabilityProbeView { survey: self.survey, probe },
            ),
            ProbeNextView::Finished(found) => self.learn(found),
        }
    }
}

/// Starts to survey a device that is known to be alive.
pub fn probe_capabilities(slave_id: u8) -> (probe: CapabilityProbe)
    ensures
        probe@ == CapabilityProbeView::start(slave_id),
{
    CapabilityProbe {
        survey: Survey::Coils,
        probe: probe_func(slave_id, READ_COILS, PROBED_BITS),
    }
}

impl CapabilityProbe {
    /// What is to be done next.
    pub fn action(&self) -> (action: Action<'_>)
        ensures
            action@ == self@.action(),
    {
        self.probe.action()
    }

    /// Takes the answer to the pending action.
    pub fn step(self, event: Event) -> (next: CapabilityNext)
        ensures
            next@ == self@.next(event@),
    {
        let CapabilityProbe { survey, probe } = self;
        let slave_id: u8 = probe.slave_id;
        let found: u16 = match probe.step(event) {
            ProbeNext::Running(probe) => return CapabilityNext::Running(
                CapabilityProbe { survey, probe },
            ),
            ProbeNext::Finished(found) => found,
        };
        match survey {
            Survey::Coils => CapabilityNext::Running(
                CapabilityProbe {
                    survey: Survey::DiscreteInputs { coils: found },
                    probe: probe_func(slave_id, READ_DISCRETE_INPUTS, PROBED_BITS),
                },
            ),
            Survey::DiscreteInputs { coils } => CapabilityNext::Running(
                CapabilityProbe {
                    survey: Survey::HoldingRegisters { coils, discrete_inputs: found },
                    probe: probe_func(slave_id, READ_HOLDING_REGISTERS, PROBED_REGISTERS),
                },
            ),
            Survey::HoldingRegisters { coils, discrete_inputs } => CapabilityNext::Running(
                CapabilityProbe {
                    survey: Survey::InputRegisters {
                        coils,
                        discrete_inputs,
                        holding_registers: found,
                    },
                    probe: probe_func(slave_id, READ_INPUT_REGISTERS, PROBED_REGISTERS),
                },
            ),
            Survey::InputRegisters { coils, discrete_inputs, holding_registers } =>
                CapabilityNext::Finished(
                Capabilities { coils, discrete_inputs, holding_registers, input_registers: found },
            ),
        }
    }
}

} // verus!
