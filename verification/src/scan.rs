//! Looking for devices on the bus.

use crate::data::Device;
use crate::frame::READ_COILS;
use crate::port::{Action, ActionView, Event, EventView};
use crate::probe;
use crate::probe::{
    build_probe, probe_capabilities, CapabilityNext, CapabilityNextView, CapabilityProbe,
    CapabilityProbeView,
};
use crate::service::{service_pending_cmds, Service, ServiceNext, ServiceNextView, ServiceView};
use vstd::prelude::*;

verus! {

/// The read timeout during a scan, in milliseconds.
pub const SCAN_TIMEOUT: u64 = 300;

/// What is to be scanned, and the settings to go back to.
#[derive(Debug)]
pub struct ScanPlan {
    pub baud_rates: Vec<u32>,
    pub slave_id_start: u8,
    pub slave_id_end: u8,
    pub restore_baud: u32,
    pub restore_timeout: u64,
}

/// How far a scan has come.
#[derive(Debug)]
pub enum ScanPhase {
    /// The next baud rate is to be tried.
    SetBaud,
    /// The scan timeout is to be set.
    SetTimeout,
    /// Commands that have queued up are carried out.
    Service(Service),
    /// The baud rate of the scan is to be set again.
    ResumeBaud,
    /// The scan timeout is to be set again.
    ResumeTimeout,
    /// Bytes left over from an earlier exchange are to be dropped.
    Clear,
    /// The request is to be written.
    Write(Vec<u8>),
    /// The request is to leave.
    Flush,
    /// The first bytes of an answer are to be read.
    Read,
    /// A device answered; the rest of its answer is to be dropped.
    DrainFound,
    /// The device that answered is surveyed.
    Survey(CapabilityProbe),
    /// No device answered; what did arrive is to be dropped.
    DrainMissed,
    /// The scan is over; the normal baud rate is to be set.
    RestoreBaud,
    /// The scan is over; the normal timeout is to be set.
    RestoreTimeout,
}

/// A scan under way: each baud rate is tried with each slave id.
#[derive(Debug)]
pub struct Scan {
    pub plan: ScanPlan,
    /// The place in the plan of the baud rate that comes next.
    pub next_rate: usize,
    /// The baud rate being scanned.
    pub baud: u32,
    /// The slave id being probed.
    pub slave_id: u8,
    pub discovered: Vec<Device>,
    pub phase: ScanPhase,
}

/// What a scan has come to.
#[derive(Debug)]
pub enum ScanNext {
    Running(Scan),
    /// The devices that were found, in the order in which they were probed.
    Finished(Vec<Device>),
    Aborted,
}

/// The mathematical content of a [`ScanPlan`].
pub struct ScanPlanView {
    pub baud_rates: Seq<u32>,
    pub slave_id_start: u8,
    pub slave_id_end: u8,
    pub restore_baud: u32,
    pub restore_timeout: u64,
}

/// The mathematical content of a [`ScanPhase`].
pub enum ScanPhaseView {
    SetBaud,
    SetTimeout,
    Service(ServiceView),
    ResumeBaud,
    ResumeTimeout,
    Clear,
    Write(Seq<u8>),
    Flush,
    Read,
    DrainFound,
    Survey(CapabilityProbeView),
    DrainMissed,
    RestoreBaud,
    RestoreTimeout,
}

/// The mathematical content of a [`Scan`].
pub struct ScanView {
    pub plan: ScanPlanView,
    pub next_rate: nat,
    pub baud: u32,
    pub slave_id: u8,
    pub discovered: Seq<Device>,
    pub phase: ScanPhaseView,
}

/// The mathematical content of a [`ScanNext`].
pub enum ScanNextView {
    Running(ScanView),
    Finished(Seq<Device>),
    Aborted,
}

impl View for ScanPlan {
    type V = ScanPlanView;

    open spec fn view(&self) -> ScanPlanView {
        ScanPlanView {
            baud_rates: self.baud_rates@,
            slave_id_start: self.slave_id_start,
            slave_id_end: self.slave_id_end,
            restore_baud: self.restore_baud,
            restore_timeout: self.restore_timeout,
        }
    }
}

impl View for ScanPhase {
    type V = ScanPhaseView;

    open spec fn view(&self) -> ScanPhaseView {
        match *self {
            ScanPhase::SetBaud => ScanPhaseView::SetBaud,
            ScanPhase::SetTimeout => ScanPhaseView::SetTimeout,
            ScanPhase::Service(service) => ScanPhaseView::Service(service@),
            ScanPhase::ResumeBaud => ScanPhaseView::ResumeBaud,
            ScanPhase::ResumeTimeout => ScanPhaseView::ResumeTimeout,
            ScanPhase::Clear => ScanPhaseView::Clear,
            ScanPhase::Write(request) => ScanPhaseView::Write(request@),
            ScanPhase::Flush => ScanPhaseView::Flush,
            ScanPhase::Read => ScanPhaseView::Read,
            ScanPhase::DrainFound => ScanPhaseView::DrainFound,
            ScanPhase::Survey(survey) => ScanPhaseView::Survey(survey@),
            ScanPhase::DrainMissed => ScanPhaseView::DrainMissed,
            ScanPhase::RestoreBaud => ScanPhaseView::RestoreBaud,
            ScanPhase::RestoreTimeout => ScanPhaseView::RestoreTimeout,
        }
    }
}

impl View for Scan {
    type V = ScanView;

    open spec fn view(&self) -> ScanView {
        ScanView {
            plan: self.plan@,
            next_rate: self.next_rate as nat,
            baud: self.baud,
            slave_id: self.slave_id,
            discovered: self.discovered@,
            phase: self.phase@,
        }
    }
}

impl View for ScanNext {
    type V = ScanNextView;

    open spec fn view(&self) -> ScanNextView {
        match *self {
            ScanNext::Running(scan) => ScanNextView::Running(scan@),
            ScanNext::Finished(discovered) => ScanNextView::Finished(discovered@),
            ScanNext::Aborted => ScanNextView::Aborted,
        }
    }
}

impl ScanView {
    /// A scan about to start.
    pub open spec fn start(plan: ScanPlanView) -> ScanView {
        ScanView {
            plan,
            next_rate: 0,
            baud: plan.restore_baud,
            slave_id: plan.slave_id_start,
            discovered: Seq::empty(),
            phase: ScanPhaseView::RestoreBaud,
        }.next_baud()
    }

    /// The same scan in another phase.
    pub open spec fn at(self, phase: ScanPhaseView) -> ScanView {
        ScanView { phase, ..self }
    }

    /// The scan, gone on to the next baud rate, or to its end where there is none.
    pub open spec fn next_baud(self) -> ScanView {
        if self.next_rate < self.plan.baud_rates.len() {
            ScanView {
                baud: self.plan.baud_rates[self.next_rate as int],
                next_rate: self.next_rate + 1,
                phase: ScanPhaseView::SetBaud,
                ..self
            }
        } else {
            self.at(ScanPhaseView::RestoreBaud)
        }
    }

    /// The scan, about to probe the given slave id.
    pub open spec fn probing(self, slave_id: u8) -> ScanView {
        ScanView {
            slave_id,
            phase: ScanPhaseView::Service(
                ServiceView::start(self.plan.restore_baud, self.plan.restore_timeout),
            ),
            ..self
        }
    }

    /// The scan, at the first slave id of the baud rate, if there is one to probe.
    pub open spec fn first_slave(self) -> ScanView {
        if self.plan.slave_id_start <= self.plan.slave_id_end {
            self.probing(self.plan.slave_id_start)
        } else {
            self.next_baud()
        }
    }

    /// The scan, gone on to the next slave id, or to the next baud rate where there is none.
    pub open spec fn next_slave(self) -> ScanView {
        if self.slave_id < self.plan.slave_id_end {
            self.probing((self.slave_id + 1) as u8)
        } else {
            self.next_baud()
        }
    }

    /// The scan with one more device found.
    pub open spec fn found(self, device: Device) -> ScanView {
        ScanView { discovered: self.discovered.push(device), ..self }
    }

    /// What is to be done next.
    pub open spec fn action(self) -> ActionView {
        match self.phase {
            ScanPhaseView::SetBaud => ActionView::SetBaudRate(self.baud),
            ScanPhaseView::SetTimeout => ActionView::SetTimeout(SCAN_TIMEOUT),
            ScanPhaseView::Service(service) => service.action(),
            ScanPhaseView::ResumeBaud => ActionView::SetBaudRate(self.baud),
            ScanPhaseView::ResumeTimeout => ActionView::SetTimeout(SCAN_TIMEOUT),
            ScanPhaseView::Clear => ActionView::ClearAll,
            ScanPhaseView::Write(request) => ActionView::Write(request),
            ScanPhaseView::Flush => ActionView::Flush,
            ScanPhaseView::Read => ActionView::Read(3),
            ScanPhaseView::DrainFound => ActionView::ClearInput,
            ScanPhaseView::Survey(survey) => survey.action(),
            ScanPhaseView::DrainMissed => ActionView::ClearInput,
            ScanPhaseView::RestoreBaud => ActionView::SetBaudRate(self.plan.restore_baud),
            ScanPhaseView::RestoreTimeout => ActionView::SetTimeout(self.plan.restore_timeout),
        }
    }

    /// What the scan comes to when the pending action is answered by `event`.
    ///
    /// A baud rate that cannot be set is passed over. Any three bytes that come back for a probe
    /// mean that a device is there.
    pub open spec fn next(self, event: EventView) -> ScanNextView {
        match self.phase {
            ScanPhaseView::SetBaud => ScanNextView::Running(
                if event is Done {
                    self.at(ScanPhaseView::SetTimeout)
                } else {
                    self.next_baud()
                },
            ),
            ScanPhaseView::SetTimeout => ScanNextView::Running(self.first_slave()),
            ScanPhaseView::Service(service) => match service.next(event) {
                ServiceNextView::Running(service) => ScanNextView::Running(
                    self.at(ScanPhaseView::Service(service)),
                ),
                ServiceNextView::Finished => ScanNextView::Running(
                    self.at(ScanPhaseView::ResumeBaud),
                ),
                ServiceNextView::Aborted => ScanNextView::Aborted,
            },
            ScanPhaseView::ResumeBaud => ScanNextView::Running(
                self.at(ScanPhaseView::ResumeTimeout),
            ),
            ScanPhaseView::ResumeTimeout => ScanNextView::Running(self.at(ScanPhaseView::Clear)),
            ScanPhaseView::Clear => ScanNextView::Running(
                match probe::probe_frame(self.slave_id, READ_COILS, 1) {
                    Some(request) => self.at(ScanPhaseView::Write(request)),
                    None => self.next_slave(),
                },
            ),
            ScanPhaseView::Write(_) => ScanNextView::Running(
                if event is Done {
                    self.at(ScanPhaseView::Flush)
                } else {
                    self.next_slave()
                },
            ),
            ScanPhaseView::Flush => ScanNextView::Running(self.at(ScanPhaseView::Read)),
            ScanPhaseView::Read => ScanNextView::Running(
                if event.bytes(3) is Some {
                    self.at(ScanPhaseView::DrainFound)
                } else {
                    self.at(ScanPhaseView::DrainMissed)
                },
            ),
            ScanPhaseView::DrainFound => ScanNextView::Running(
                self.at(ScanPhaseView::Survey(CapabilityProbeView::start(self.slave_id))),
            ),
            ScanPhaseView::Survey(survey) => ScanNextView::Running(
                match survey.next(event) {
                    CapabilityNextView::Running(survey) => self.at(ScanPhaseView::Survey(survey)),
                    CapabilityNextView::Finished(caps) => self.found(
                        Device { slave_id: self.slave_id, baud_rate: self.baud, caps },
                    ).next_slave(),
                },
            ),
            ScanPhaseView::DrainMissed => ScanNextView::Running(self.next_slave()),
            ScanPhaseView::RestoreBaud => ScanNextView::Running(
                self.at(ScanPhaseView::RestoreTimeout),
            ),
            ScanPhaseView::RestoreTimeout => ScanNextView::Finished(self.discovered),
        }
    }
}

/// Starts a scan of the bus.
pub fn scan_bus(
    baud_rates: Vec<u32>,
    slave_id_start: u8,
    slave_id_end: u8,
    restore_baud: u32,
    restore_timeout: u64,
) -> (scan: Scan)
    ensures
        scan@ == ScanView::start(
            (ScanPlanView {
                baud_rates: baud_rates@,
                slave_id_start,
                slave_id_end,
                restore_baud,
                restore_timeout,
            }),
        ),
{
    let plan = ScanPlan { baud_rates, slave_id_start, slave_id_end, restore_baud, restore_timeout };
    let scan = Scan {
        plan,
        next_rate: 0,
        baud: restore_baud,
        slave_id: slave_id_start,
        discovered: Vec::new(),
        phase: ScanPhase::RestoreBaud,
    };
    assert(scan@.discovered =~= Seq::<Device>::empty());
    scan.next_baud()
}

impl Scan {
    /// Goes on in the given phase.
    fn at(self, phase: ScanPhase) -> (scan: Scan)
        ensures
            scan@ == self@.at(phase@),
    {
        Scan { phase, ..self }
    }

    /// Goes on to the next baud rate, or to the end where there is none.
    fn next_baud(self) -> (scan: Scan)
        ensures
            scan@ == self@.next_baud(),
    {
        if self.next_rate < self.plan.baud_rates.len() {
            Scan {
                baud: self.plan.baud_rates[self.next_rate],
                next_rate: self.next_rate + 1,
                phase: ScanPhase::SetBaud,
                ..self
            }
        } else {
            self.at(ScanPhase::RestoreBaud)
        }
    }

    /// Gets ready to probe the given slave id.
    fn probing(self, slave_id: u8) -> (scan: Scan)
        ensures
            scan@ == self@.probing(slave_id),
    {
        let service: Service = service_pending_cmds(
            self.plan.restore_baud,
            self.plan.restore_timeout,
        );
        Scan { slave_id, phase: ScanPhase::Service(service), ..self }
    }

    /// Goes on to the first slave id of the baud rate, if there is one to probe.
    fn first_slave(self) -> (scan: Scan)
        ensures
            scan@ == self@.first_slave(),
    {
        if self.plan.slave_id_start <= self.plan.slave_id_end {
            let slave_id: u8 = self.plan.slave_id_start;
            self.probing(slave_id)
        } else {
            self.next_baud()
        }
    }

    /// Goes on to the next slave id, or to the next baud rate where there is none.
    fn next_slave(self) -> (scan: Scan)
        ensures
            scan@ == self@.next_slave(),
    {
        if self.slave_id < self.plan.slave_id_end {
            let slave_id: u8 = self.slave_id + 1;
            self.probing(slave_id)
        } else {
            self.next_baud()
        }
    }

    /// Notes down a device.
    fn found(self, device: Device) -> (scan: Scan)
        ensures
            scan@ == self@.found(device),
    {
        let mut scan = self;
        scan.discovered.push(device);
        scan
    }

    /// What is to be done next.
    pub fn action(&self) -> (action: Action<'_>)
        ensures
            action@ == self@.action(),
    {
        match &self.phase {
            ScanPhase::SetBaud => Action::SetBaudRate(self.baud),
            ScanPhase::SetTimeout => Action::SetTimeout(SCAN_TIMEOUT),
            ScanPhase::Service(service) => service.action(),
            ScanPhase::ResumeBaud => Action::SetBaudRate(self.baud),
            ScanPhase::ResumeTimeout => Action::SetTimeout(SCAN_TIMEOUT),
            ScanPhase::Clear => Action::ClearAll,
            ScanPhase::Write(request) => Action::Write(request),
            ScanPhase::Flush => Action::Flush,
            ScanPhase::Read => Action::Read(3),
            ScanPhase::DrainFound => Action::ClearInput,
            ScanPhase::Survey(survey) => survey.action(),
            ScanPhase::DrainMissed => Action::ClearInput,
            ScanPhase::RestoreBaud => Action::SetBaudRate(self.plan.restore_baud),
            ScanPhase::RestoreTimeout => Action::SetTimeout(self.plan.restore_timeout),
        }
    }

    /// Takes the answer to the pending action.
    pub fn step(self, event: Event) -> (next: ScanNext)
        ensures
            next@ == self@.next(event@),
    {
        let mut scan = self;
        let mut phase: ScanPhase = ScanPhase::RestoreBaud;
        std::mem::swap(&mut phase, &mut scan.phase);
        let scan: Scan = match phase {
            ScanPhase::SetBaud => if event.is_done() {
                scan.at(ScanPhase::SetTimeout)
            } else {
                scan.next_baud()
            },
            ScanPhase::SetTimeout => scan.first_slave(),
            ScanPhase::Service(service) => match service.step(event) {
                ServiceNext::Running(service) => scan.at(ScanPhase::Service(service)),
                ServiceNext::Finished => scan.at(ScanPhase::ResumeBaud),
                ServiceNext::Aborted => return ScanNext::Aborted,
            },
            ScanPhase::ResumeBaud => scan.at(ScanPhase::ResumeTimeout),
            ScanPhase::ResumeTimeout => scan.at(ScanPhase::Clear),
            ScanPhase::Clear => match build_probe(scan.slave_id, READ_COILS, 1) {
                Some(request) => scan.at(ScanPhase::Write(request)),
                None => scan.next_slave(),
            },
            ScanPhase::Write(_) => if event.is_done() {
                scan.at(ScanPhase::Flush)
            } else {
                scan.next_slave()
            },
            ScanPhase::Flush => scan.at(ScanPhase::Read),
            ScanPhase::Read => match event.bytes(3) {
                Some(_) => scan.at(ScanPhase::DrainFound),
                None => scan.at(ScanPhase::DrainMissed),
            },
            ScanPhase::DrainFound => {
                let survey: CapabilityProbe = probe_capabilities(scan.slave_id);
                scan.at(ScanPhase::Survey(survey))
            },
            ScanPhase::Survey(survey) => match survey.step(event) {
                CapabilityNext::Running(survey) => scan.at(ScanPhase::Survey(survey)),
                CapabilityNext::Finished(caps) => {
                    let device = Device { slave_id: scan.slave_id, baud_rate: scan.baud, caps };
                    scan.found(device).next_slave()
                },
            },
            ScanPhase::DrainMissed => scan.next_slave(),
            ScanPhase::RestoreBaud => scan.at(ScanPhase::RestoreTimeout),
            ScanPhase::RestoreTimeout => return ScanNext::Finished(scan.discovered),
        };
        ScanNext::Running(scan)
    }
}

} // verus!
