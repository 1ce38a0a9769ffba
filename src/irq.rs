//! Interrupt demultiplexing and the single-flight scheduling of polls.
use vstd::prelude::*;

verus! {

/// What the interrupt handler tells the interrupt line's dispatcher.
#[derive(Clone, Copy, Debug, PartialEq, Eq, Structural)]
pub enum IrqReturn {
    /// The device raised no cause: the event belongs to another device on
    /// the shared line.
    NotMine,
    /// The event was this device's; a poll has been asked for.
    Handled,
}

/// Classifies the value read (and thereby cleared) from the interrupt
/// cause register.
pub fn demux(cause: u32) -> (r: IrqReturn)
    ensures
        r == (if cause == 0 {
            IrqReturn::NotMine
        } else {
            IrqReturn::Handled
        }),
{
    if cause == 0 {
        IrqReturn::NotMine
    } else {
        IrqReturn::Handled
    }
}

/// Scheduling state of the device's poll task.
pub struct PollGate {
    enabled: bool,
    scheduled: bool,
    running: bool,
}

impl PollGate {
    pub closed spec fn enabled(&self) -> bool {
        self.enabled
    }

    pub closed spec fn scheduled(&self) -> bool {
        self.scheduled
    }

    pub closed spec fn running(&self) -> bool {
        self.running
    }

    /// Number of polls running at once.
    pub open spec fn active(&self) -> nat {
        if self.running() {
            1
        } else {
            0
        }
    }

    /// `post` is `pre` after `try_begin` returned `r`.
    pub open spec fn begin_post(pre: Self, post: Self, r: bool) -> bool {
        &&& r == (pre.scheduled() && !pre.running() && pre.enabled())
        &&& r ==> post.running() && !post.scheduled()
        &&& !r ==> post == pre
        &&& post.enabled() == pre.enabled()
    }

    /// A gate that schedules nothing until enabled.
    pub fn new() -> (r: PollGate)
        ensures
            !r.enabled(),
            !r.scheduled(),
            !r.running(),
    {
        PollGate { enabled: false, scheduled: false, running: false }
    }

    /// Allows polls to be scheduled (the device was opened).
    pub fn enable(&mut self)
        ensures
            final(self).enabled(),
            final(self).scheduled() == old(self).scheduled(),
            final(self).running() == old(self).running(),
    {
        self.enabled = true;
    }

    /// Stops further polls from being scheduled and forgets a pending
    /// request (the device is closing). A poll already running finishes.
    pub fn disable(&mut self)
        ensures
            !final(self).enabled(),
            !final(self).scheduled(),
            final(self).running() == old(self).running(),
    {
        self.enabled = false;
        self.scheduled = false;
    }

    /// Handles an interrupt whose cause register read `cause`: with no
    /// cause the event is not this device's and nothing is scheduled;
    /// otherwise a poll is requested, if polls are enabled.
    pub fn on_interrupt(&mut self, cause: u32) -> (r: IrqReturn)
        ensures
            r == (if cause == 0 {
                IrqReturn::NotMine
            } else {
                IrqReturn::Handled
            }),
            final(self).enabled() == old(self).enabled(),
            final(self).running() == old(self).running(),
            final(self).scheduled() == (old(self).scheduled() || (cause != 0
                && old(self).enabled())),
    {
        let r = demux(cause);
        match r {
            IrqReturn::Handled => {
                if self.enabled {
                    self.scheduled = true;
                }
            },
            IrqReturn::NotMine => {},
        }
        r
    }

    /// Starts the requested poll, unless one is running already or none is
    /// requested. Returns whether the caller may run the poll now.
    pub fn try_begin(&mut self) -> (r: bool)
        ensures
            Self::begin_post(*old(self), *final(self), r),
    {
        if self.scheduled && !self.running && self.enabled {
            self.scheduled = false;
            self.running = true;
            true
        } else {
            false
        }
    }

    /// Ends the running poll.
    pub fn end(&mut self)
        ensures
            !final(self).running(),
            final(self).enabled() == old(self).enabled(),
            final(self).scheduled() == old(self).scheduled(),
    {
        self.running = false;
    }

    /// Whether a poll is requested and may start.
    pub fn poll_pending(&self) -> (r: bool)
        ensures
            r == (self.scheduled() && !self.running() && self.enabled()),
    {
        self.scheduled && !self.running && self.enabled
    }

    /// Whether a poll is running.
    pub fn is_running(&self) -> (r: bool)
        ensures
            r == self.running(),
    {
        self.running
    }
}

} // verus!
