//! The one-shot reset protocol, as a state machine that hands out one
//! register access at a time and takes back its outcome.
use vstd::prelude::*;
use crate::ops::{HwError, RegOp};
use crate::regs::{
    ALL_INTERRUPTS, E1000_CTRL, E1000_CTRL_RST, E1000_ICR, E1000_IMC, E1000_MANC,
    E1000_MANC_ARP_EN, E1000_RCTL, E1000_STATUS, E1000_TCTL, E1000_TCTL_PSP, IO_ADDR_PORT,
    IO_DATA_PORT,
};

verus! {

/// Number of register accesses in a reset.
pub const RESET_STEPS: usize = 13;
/// The step that reads the control register.
pub const STEP_READ_CTRL: usize = 5;
/// The step that reads the management control register.
pub const STEP_READ_MANC: usize = 9;
/// Settling delay before the global reset, in milliseconds.
pub const SETTLE_DELAY_MS: u32 = 10;
/// Delay for the configuration reload after the reset, in milliseconds.
pub const RELOAD_DELAY_MS: u32 = 5;

/// The access made at `step` of a reset, where `ctrl` and `manc` are the
/// values read from the control and management control registers earlier.
pub open spec fn reset_op(step: int, ctrl: u32, manc: u32) -> RegOp {
    if step == 0 {
        RegOp::MmioWrite { offset: E1000_IMC, value: ALL_INTERRUPTS }
    } else if step == 1 {
        RegOp::MmioWrite { offset: E1000_RCTL, value: 0 }
    } else if step == 2 {
        RegOp::MmioWrite { offset: E1000_TCTL, value: E1000_TCTL_PSP }
    } else if step == 3 {
        RegOp::MmioRead { offset: E1000_STATUS }
    } else if step == 4 {
        RegOp::Delay { ms: SETTLE_DELAY_MS }
    } else if step == 5 {
        RegOp::MmioRead { offset: E1000_CTRL }
    } else if step == 6 {
        RegOp::PortWrite { port: IO_ADDR_PORT, value: E1000_CTRL as u32 }
    } else if step == 7 {
        RegOp::PortWrite { port: IO_DATA_PORT, value: ctrl | E1000_CTRL_RST }
    } else if step == 8 {
        RegOp::Delay { ms: RELOAD_DELAY_MS }
    } else if step == 9 {
        RegOp::MmioRead { offset: E1000_MANC }
    } else if step == 10 {
        RegOp::MmioWrite { offset: E1000_MANC, value: manc & !E1000_MANC_ARP_EN }
    } else if step == 11 {
        RegOp::MmioWrite { offset: E1000_IMC, value: ALL_INTERRUPTS }
    } else {
        RegOp::MmioRead { offset: E1000_ICR }
    }
}

/// The whole reset, given the two values it reads.
pub open spec fn reset_script(ctrl: u32, manc: u32) -> Seq<RegOp> {
    Seq::new(RESET_STEPS as nat, |i: int| reset_op(i, ctrl, manc))
}

fn op_at(step: usize, ctrl: u32, manc: u32) -> (r: RegOp)
    requires
        step < RESET_STEPS,
    ensures
        r == reset_op(step as int, ctrl, manc),
{
    match step {
        0 => RegOp::MmioWrite { offset: E1000_IMC, value: ALL_INTERRUPTS },
        1 => RegOp::MmioWrite { offset: E1000_RCTL, value: 0 },
        2 => RegOp::MmioWrite { offset: E1000_TCTL, value: E1000_TCTL_PSP },
        3 => RegOp::MmioRead { offset: E1000_STATUS },
        4 => RegOp::Delay { ms: SETTLE_DELAY_MS },
        5 => RegOp::MmioRead { offset: E1000_CTRL },
        6 => RegOp::PortWrite { port: IO_ADDR_PORT, value: E1000_CTRL as u32 },
        7 => RegOp::PortWrite { port: IO_DATA_PORT, value: ctrl | E1000_CTRL_RST },
        8 => RegOp::Delay { ms: RELOAD_DELAY_MS },
        9 => RegOp::MmioRead { offset: E1000_MANC },
        10 => RegOp::MmioWrite { offset: E1000_MANC, value: manc & !E1000_MANC_ARP_EN },
        11 => RegOp::MmioWrite { offset: E1000_IMC, value: ALL_INTERRUPTS },
        _ => RegOp::MmioRead { offset: E1000_ICR },
    }
}

/// Progress through a reset: the next step, the values read so far, and
/// whether an access failed (which ends the reset).
pub struct ResetSeq {
    step: usize,
    ctrl: u32,
    manc: u32,
    failed: bool,
}

impl ResetSeq {
    pub closed spec fn step(&self) -> nat {
        self.step as nat
    }

    pub closed spec fn ctrl(&self) -> u32 {
        self.ctrl
    }

    pub closed spec fn manc(&self) -> u32 {
        self.manc
    }

    pub closed spec fn failed(&self) -> bool {
        self.failed
    }

    pub closed spec fn wf(&self) -> bool {
        self.step <= RESET_STEPS
    }

    /// A reset that has not issued anything yet.
    pub fn new() -> (r: ResetSeq)
        ensures
            r.wf(),
            r.step() == 0,
            !r.failed(),
            r.ctrl() == 0,
            r.manc() == 0,
    {
        ResetSeq { step: 0, ctrl: 0, manc: 0, failed: false }
    }

    /// The access to perform next, or `None` once the reset has finished
    /// or failed.
    pub fn next_op(&self) -> (r: Option<RegOp>)
        requires
            self.wf(),
        ensures
            self.failed() || self.step() >= RESET_STEPS ==> r is None,
            !self.failed() && self.step() < RESET_STEPS ==> r == Some(
                reset_script(self.ctrl(), self.manc())[self.step() as int],
            ),
    {
        if self.failed || self.step >= RESET_STEPS {
            None
        } else {
            Some(op_at(self.step, self.ctrl, self.manc))
        }
    }

    /// Records the outcome of the access `next_op` handed out: the value
    /// read (any value after a write or a delay), or the error.
    pub fn advance(&mut self, outcome: Result<u32, HwError>)
        requires
            old(self).wf(),
            !old(self).failed(),
            old(self).step() < RESET_STEPS,
        ensures
            final(self).wf(),
            outcome is Err ==> final(self).failed() && final(self).step() == old(self).step()
                && final(self).ctrl() == old(self).ctrl() && final(self).manc() == old(
                self,
            ).manc(),
            outcome is Ok ==> {
                &&& !final(self).failed()
                &&& final(self).step() == old(self).step() + 1
                &&& final(self).ctrl() == (if old(self).step() == STEP_READ_CTRL {
                    outcome->Ok_0
                } else {
                    old(self).ctrl()
                })
                &&& final(self).manc() == (if old(self).step() == STEP_READ_MANC {
                    outcome->Ok_0
                } else {
                    old(self).manc()
                })
            },
    {
        match outcome {
            Err(_) => {
                self.failed = true;
            },
            Ok(v) => {
                if self.step == STEP_READ_CTRL {
                    self.ctrl = v;
                } else if self.step == STEP_READ_MANC {
                    self.manc = v;
                }
                self.step = self.step + 1;
            },
        }
    }

    /// `None` while accesses remain; then `Ok(())`, or the error that
    /// stopped the reset.
    pub fn outcome(&self) -> (r: Option<Result<(), HwError>>)
        requires
            self.wf(),
        ensures
            self.failed() ==> r == Some(Err::<(), HwError>(HwError::Access)),
            !self.failed() && self.step() >= RESET_STEPS ==> r == Some(Ok::<(), HwError>(())),
            !self.failed() && self.step() < RESET_STEPS ==> r is None,
    {
        if self.failed {
            Some(Err(HwError::Access))
        } else if self.step >= RESET_STEPS {
            Some(Ok(()))
        } else {
            None
        }
    }
}

} // verus!
