use e1000::device::{next_state, DevEvent, DevState, Device};
use e1000::irq::{demux, IrqReturn, PollGate};
use e1000::regs::MAC_ADDR;

#[test]
fn irq_cause_zero_is_not_mine() {
    assert_eq!(demux(0), IrqReturn::NotMine);
    let mut gate = PollGate::new();
    gate.enable();
    assert_eq!(gate.on_interrupt(0), IrqReturn::NotMine);
    assert!(!gate.poll_pending());
    assert!(!gate.try_begin());
}

#[test]
fn irq_cause_schedules_poll() {
    assert_eq!(demux(0x80), IrqReturn::Handled);
    let mut gate = PollGate::new();
    gate.enable();
    assert_eq!(gate.on_interrupt(0x80), IrqReturn::Handled);
    assert!(gate.poll_pending());
}

#[test]
fn irq_poll_is_single_flight() {
    let mut gate = PollGate::new();
    gate.enable();
    gate.on_interrupt(0x1);
    assert!(gate.try_begin());
    assert!(gate.is_running());
    // Another interrupt during the poll does not start a second one.
    gate.on_interrupt(0x1);
    assert!(!gate.try_begin());
    gate.end();
    assert!(gate.try_begin());
    gate.end();
    assert!(!gate.try_begin());
}

#[test]
fn irq_disabled_gate_schedules_nothing() {
    let mut gate = PollGate::new();
    assert_eq!(gate.on_interrupt(0x4), IrqReturn::Handled);
    assert!(!gate.poll_pending());
    gate.enable();
    gate.on_interrupt(0x4);
    gate.disable();
    assert!(!gate.poll_pending());
    assert!(!gate.try_begin());
}

#[test]
fn device_lifecycle_in_order() {
    let mut dev = Device::new(11, MAC_ADDR);
    assert_eq!(dev.current_state(), DevState::Uninitialized);
    assert_eq!(dev.irq(), 11);
    assert_eq!(dev.mac(), MAC_ADDR);
    assert!(!dev.handle(DevEvent::Opened));
    assert!(dev.handle(DevEvent::ResetDone));
    assert!(dev.handle(DevEvent::ConfigureDone));
    assert_eq!(dev.on_interrupt(0x80), IrqReturn::Handled);
    assert!(!dev.try_begin_poll());
    assert!(dev.handle(DevEvent::Opened));
    assert_eq!(dev.current_state(), DevState::Running);
    assert_eq!(dev.on_interrupt(0x80), IrqReturn::Handled);
    assert!(dev.try_begin_poll());
    dev.end_poll();
    assert!(dev.handle(DevEvent::Closed));
    assert_eq!(dev.current_state(), DevState::Stopped);
    assert_eq!(dev.on_interrupt(0x80), IrqReturn::Handled);
    assert!(!dev.try_begin_poll());
    assert!(!dev.handle(DevEvent::ResetDone));
}

#[test]
fn device_close_cancels_pending_poll() {
    let mut dev = Device::new(3, MAC_ADDR);
    dev.handle(DevEvent::ResetDone);
    dev.handle(DevEvent::ConfigureDone);
    dev.handle(DevEvent::Opened);
    dev.on_interrupt(0x1);
    assert!(dev.handle(DevEvent::Closed));
    assert!(!dev.try_begin_poll());
}

#[test]
fn device_transitions_table() {
    assert_eq!(next_state(DevState::Uninitialized, DevEvent::ResetDone), Some(DevState::Reset));
    assert_eq!(next_state(DevState::Reset, DevEvent::ConfigureDone), Some(DevState::Configured));
    assert_eq!(next_state(DevState::Configured, DevEvent::Opened), Some(DevState::Running));
    assert_eq!(next_state(DevState::Running, DevEvent::Closed), Some(DevState::Stopped));
    assert_eq!(next_state(DevState::Stopped, DevEvent::Opened), None);
    assert_eq!(next_state(DevState::Running, DevEvent::ResetDone), None);
}
