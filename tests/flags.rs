use musb::alloc_endpoint::Direction;
use musb::control::{ControlState, ControlStateEnum};
use musb::flags::{BusEvent, EnabledMask, IrqFlags, PollResult};
use musb::regs::{Csr0l, Intrrx, Intrtx, Intrusb};

#[test]
fn disabling_twice_changes_nothing() {
    let mut m = EnabledMask::new();
    m.set_enabled(3, Direction::In, true);
    m.set_enabled(2, Direction::Out, true);
    assert!(m.is_enabled(3, Direction::In));
    assert!(!m.is_enabled(3, Direction::Out));
    assert_eq!(m, EnabledMask { tx: 0b1000, rx: 0b100 });
    m.set_enabled(3, Direction::In, false);
    let once = m;
    m.set_enabled(3, Direction::In, false);
    assert_eq!(m, once);
    m.set_enabled(5, Direction::Out, false);
    assert_eq!(m, once);
    assert_eq!(m, EnabledMask { tx: 0, rx: 0b100 });
}

#[test]
fn interrupt_records_events() {
    let mut f = IrqFlags::new();
    // reset (bit 2) and resume (bit 1)
    f.on_interrupt(Intrusb(0b110), Intrtx(0b1_0000_0101), Intrrx(0b1000_0010), 8);
    assert!(f.reset && f.resume && !f.suspend);
    assert!(f.ep0);
    // Endpoint 8 is beyond an 8-endpoint chip.
    assert_eq!(f.ep_tx, 0b100);
    assert_eq!(f.ep_rx, 0b1000_0010);
    assert_eq!(f.take_bus_event(), Some(BusEvent::Reset));
    assert_eq!(f.take_bus_event(), Some(BusEvent::Resume));
    assert_eq!(f.take_bus_event(), None);
    f.on_interrupt(Intrusb(0b1), Intrtx(0), Intrrx(0), 8);
    assert_eq!(f.take_bus_event(), Some(BusEvent::Suspend));
    assert_eq!(f.take_bus_event(), None);
}

#[test]
fn ep0_interrupt_with_setup() {
    let mut f = IrqFlags::new();
    f.ep0 = true;
    let mut c = ControlState::new();
    let irq = f.service_ep0(&mut c, Csr0l(0b1), 8);
    assert!(irq.setup);
    assert!(!f.ep0);
    assert_eq!(c.get_state(), ControlStateEnum::Setup);
}

#[test]
fn ep0_interrupt_in_data_out_flags_rx() {
    let mut f = IrqFlags::new();
    f.ep0 = true;
    let mut c = ControlState::new();
    c.set_state(ControlStateEnum::DataOut);
    let irq = f.service_ep0(&mut c, Csr0l(0b1), 10);
    assert!(irq.rx_ready);
    assert_eq!(f.ep_rx, 1);
}

#[test]
fn accepted_status_stage_completes() {
    let mut f = IrqFlags::new();
    f.ep_rx = 0b101;
    let mut c = ControlState::new();
    c.set_state(ControlStateEnum::Accepted);
    f.finish_accepted(&mut c);
    assert_eq!(c.get_state(), ControlStateEnum::Idle);
    assert_eq!(f.ep_tx, 1);
    assert_eq!(f.ep_rx, 0b100);
    assert!(f.ep0);
    let before = f;
    f.finish_accepted(&mut c);
    assert_eq!(f, before);
}

#[test]
fn poll_reports_data() {
    let mut f = IrqFlags::new();
    assert_eq!(f.take_data(false), PollResult::Quiet);
    assert_eq!(
        f.take_data(true),
        PollResult::Data { ep_out: 0, ep_in_complete: 0, ep_setup: 1 }
    );
    f.ep_tx = 0b10;
    f.ep_rx = 0b100;
    assert_eq!(
        f.take_data(false),
        PollResult::Data { ep_out: 0b100, ep_in_complete: 0b10, ep_setup: 0 }
    );
    assert_eq!(f.ep_tx, 0);
    f.rx_drained(2);
    assert_eq!(f.ep_rx, 0);
}

#[test]
fn async_bus_events_report_power_then_resume_first() {
    let mut f = IrqFlags::new();
    let mut inited = false;
    f.reset = true;
    f.resume = true;
    assert_eq!(f.take_async_bus_event(&mut inited), Some(BusEvent::PowerDetected));
    assert!(inited);
    assert_eq!(f.take_async_bus_event(&mut inited), Some(BusEvent::Resume));
    assert_eq!(f.take_async_bus_event(&mut inited), Some(BusEvent::Reset));
    f.suspend = true;
    assert_eq!(f.take_async_bus_event(&mut inited), Some(BusEvent::Suspend));
    assert_eq!(f.take_async_bus_event(&mut inited), None);
}
