//! The device context: its lifecycle, identity, and the poll gate that the
//! lifecycle opens and closes.
use vstd::prelude::*;
use crate::irq::{IrqReturn, PollGate};

verus! {

/// Lifecycle of a device between attach and detach.
#[derive(Clone, Copy, Debug, PartialEq, Eq, Structural)]
pub enum DevState {
    Uninitialized,
    Reset,
    Configured,
    Running,
    Stopped,
}

/// What moves a device along its lifecycle.
#[derive(Clone, Copy, Debug, PartialEq, Eq, Structural)]
pub enum DevEvent {
    /// The reset protocol completed.
    ResetDone,
    /// Both rings were programmed into the device.
    ConfigureDone,
    /// The device was opened for traffic.
    Opened,
    /// The device was closed.
    Closed,
}

/// The lifecycle's transitions; `None` where an event is out of order.
/// There is no way back: a stopped device is detached and attached anew.
pub open spec fn transition(s: DevState, e: DevEvent) -> Option<DevState> {
    match (s, e) {
        (DevState::Uninitialized, DevEvent::ResetDone) => Some(DevState::Reset),
        (DevState::Reset, DevEvent::ConfigureDone) => Some(DevState::Configured),
        (DevState::Configured, DevEvent::Opened) => Some(DevState::Running),
        (DevState::Running, DevEvent::Closed) => Some(DevState::Stopped),
        _ => None,
    }
}

pub fn next_state(s: DevState, e: DevEvent) -> (r: Option<DevState>)
    ensures
        r == transition(s, e),
{
    match (s, e) {
        (DevState::Uninitialized, DevEvent::ResetDone) => Some(DevState::Reset),
        (DevState::Reset, DevEvent::ConfigureDone) => Some(DevState::Configured),
        (DevState::Configured, DevEvent::Opened) => Some(DevState::Running),
        (DevState::Running, DevEvent::Closed) => Some(DevState::Stopped),
        _ => None,
    }
}

/// One attached device: where it is in its lifecycle, its interrupt line,
/// its station address, and the scheduling of its poll.
pub struct Device {
    state: DevState,
    irq: u32,
    mac: [u8; 6],
    gate: PollGate,
}

impl Device {
    pub closed spec fn state(&self) -> DevState {
        self.state
    }

    pub closed spec fn gate(&self) -> PollGate {
        self.gate
    }

    pub closed spec fn irq_line(&self) -> u32 {
        self.irq
    }

    pub closed spec fn station(&self) -> Seq<u8> {
        self.mac@
    }

    /// Polls may be scheduled exactly while the device runs, and none is
    /// pending while they may not.
    pub open spec fn wf(&self) -> bool {
        &&& self.gate().enabled() == (self.state() == DevState::Running)
        &&& !self.gate().enabled() ==> !self.gate().scheduled()
    }

    /// A device just attached, on interrupt line `irq`, with station
    /// address `mac`.
    pub fn new(irq: u32, mac: [u8; 6]) -> (r: Device)
        ensures
            r.wf(),
            r.state() == DevState::Uninitialized,
            r.irq_line() == irq,
            r.station() == mac@,
            !r.gate().scheduled(),
            !r.gate().running(),
    {
        Device { state: DevState::Uninitialized, irq, mac, gate: PollGate::new() }
    }

    /// The current lifecycle state.
    pub fn current_state(&self) -> (r: DevState)
        ensures
            r == self.state(),
    {
        self.state
    }

    /// The interrupt line.
    pub fn irq(&self) -> (r: u32)
        ensures
            r == self.irq_line(),
    {
        self.irq
    }

    /// The station address.
    pub fn mac(&self) -> (r: [u8; 6])
        ensures
            r@ == self.station(),
    {
        self.mac
    }

    /// Applies `e` if it is in order and says whether it was. Opening
    /// enables polls; closing stops further polls from being scheduled.
    pub fn handle(&mut self, e: DevEvent) -> (r: bool)
        requires
            old(self).wf(),
        ensures
            final(self).wf(),
            r == (transition(old(self).state(), e) is Some),
            r ==> final(self).state() == transition(old(self).state(), e)->Some_0,
            !r ==> final(self).state() == old(self).state() && final(self).gate() == old(self).gate(),
            final(self).gate().running() == old(self).gate().running(),
            final(self).state() == DevState::Stopped ==> !final(self).gate().scheduled(),
            final(self).irq_line() == old(self).irq_line(),
            final(self).station() == old(self).station(),
    {
        match next_state(self.state, e) {
            Some(s) => {
                self.state = s;
                match s {
                    DevState::Running => self.gate.enable(),
                    DevState::Stopped => self.gate.disable(),
                    _ => {},
                }
                true
            },
            None => false,
        }
    }

    /// Handles an interrupt whose cause register read `cause`; see
    /// `PollGate::on_interrupt`.
    pub fn on_interrupt(&mut self, cause: u32) -> (r: IrqReturn)
        requires
            old(self).wf(),
        ensures
            final(self).wf(),
            r == (if cause == 0 {
                IrqReturn::NotMine
            } else {
                IrqReturn::Handled
            }),
            final(self).state() == old(self).state(),
            final(self).gate().running() == old(self).gate().running(),
            final(self).gate().scheduled() == (old(self).gate().scheduled() || (cause != 0
                && old(self).state() == DevState::Running)),
            final(self).irq_line() == old(self).irq_line(),
            final(self).station() == old(self).station(),
    {
        self.gate.on_interrupt(cause)
    }

    /// Starts the requested poll if none is running; see
    /// `PollGate::try_begin`.
    pub fn try_begin_poll(&mut self) -> (r: bool)
        requires
            old(self).wf(),
        ensures
            final(self).wf(),
            PollGate::begin_post(old(self).gate(), final(self).gate(), r),
            final(self).state() == old(self).state(),
            final(self).irq_line() == old(self).irq_line(),
            final(self).station() == old(self).station(),
    {
        self.gate.try_begin()
    }

    /// Ends the running poll.
    pub fn end_poll(&mut self)
        requires
            old(self).wf(),
        ensures
            final(self).wf(),
            !final(self).gate().running(),
            final(self).gate().scheduled() == old(self).gate().scheduled(),
            final(self).state() == old(self).state(),
            final(self).irq_line() == old(self).irq_line(),
            final(self).station() == old(self).station(),
    {
        self.gate.end()
    }
}

} // verus!
