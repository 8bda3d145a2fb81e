use musb::alloc_endpoint::{Direction, EndpointData};
use musb::common_impl::{CsrWrite, TxEnable};
use musb::control::{ControlState, ControlStateEnum};
use musb::flags::{EnabledMask, IrqFlags, PollResult};
use musb::regs::{Csr0l, Txcsrl};
use musb::usbd::{endpoint_set_enabled, poll, set_stalled, EnablePlan, Ep0Status};

#[test]
fn poll_reports_bus_event_first() {
    let mut c = ControlState::new();
    let mut f = IrqFlags::new();
    f.reset = true;
    f.ep_tx = 0b10;
    let r = poll(&mut c, &mut f, None, 0);
    assert_eq!(r.result, PollResult::Reset);
    assert!(!f.reset);
    assert_eq!(f.ep_tx, 0b10);
    f.suspend = true;
    assert_eq!(poll(&mut c, &mut f, None, 0).result, PollResult::Suspend);
    assert!(!f.suspend);
}

#[test]
fn poll_reports_setup() {
    let mut c = ControlState::new();
    let mut f = IrqFlags::new();
    f.ep0 = true;
    let st = Ep0Status { csr0l: Csr0l(0b1), count: 8 };
    let r = poll(&mut c, &mut f, Some(st), 0b1);
    assert!(r.service_setup_end);
    assert_eq!(r.result, PollResult::Data { ep_out: 0, ep_in_complete: 0, ep_setup: 1 });
    assert_eq!(c.get_state(), ControlStateEnum::Setup);
    assert!(!f.ep0);
}

#[test]
fn poll_completes_accepted_status_stage() {
    let mut c = ControlState::new();
    c.set_state(ControlStateEnum::Accepted);
    let mut f = IrqFlags::new();
    f.ep_rx = 0b100;
    let r = poll(&mut c, &mut f, None, 0b100);
    assert_eq!(r.result, PollResult::Data { ep_out: 0b100, ep_in_complete: 1, ep_setup: 0 });
    assert_eq!(c.get_state(), ControlStateEnum::Idle);
    // The data of endpoint 2 has been read meanwhile.
    let r = poll(&mut c, &mut f, None, 0);
    assert_eq!(r.result, PollResult::Quiet);
    assert_eq!(f.ep_rx, 0);
}

#[test]
fn stalling_ep0_aborts_transfer() {
    let mut c = ControlState::new();
    c.set_state(ControlStateEnum::DataIn);
    c.set_tx_len(30);
    assert_eq!(set_stalled(&mut c, 0, Direction::In, true), CsrWrite::Csr0l(Csr0l(0x20)));
    assert_eq!(c, ControlState { state: ControlStateEnum::Idle, tx_len: 0 });
    c.set_state(ControlStateEnum::DataOut);
    assert_eq!(set_stalled(&mut c, 2, Direction::In, false), CsrWrite::Txcsrl(Txcsrl(0x40)));
    assert_eq!(c.get_state(), ControlStateEnum::DataOut);
}

#[test]
fn enabling_and_disabling() {
    let mut m = EnabledMask::new();
    let mut conf = EndpointData::unused().ep_conf;
    conf.tx_max_packet_size = 64;
    match endpoint_set_enabled(&mut m, 2, Direction::In, true, &conf, false) {
        Some(EnablePlan::Tx(TxEnable::Data { index, maxp, .. })) => {
            assert_eq!(index, 2);
            assert_eq!(maxp.0, 64);
        }
        _ => panic!("expected a TX plan"),
    }
    assert_eq!(m.tx, 0b100);
    assert!(endpoint_set_enabled(&mut m, 2, Direction::In, false, &conf, false).is_none());
    assert_eq!(m.tx, 0);
    assert!(endpoint_set_enabled(&mut m, 2, Direction::In, false, &conf, false).is_none());
    assert_eq!(m.tx, 0);
}

#[test]
fn poll_flags_malformed_setup() {
    let mut c = ControlState::new();
    let mut f = IrqFlags::new();
    f.ep0 = true;
    let r = poll(&mut c, &mut f, Some(Ep0Status { csr0l: Csr0l(0b1), count: 5 }), 0b1);
    assert!(r.malformed_setup);
    assert!(!r.service_setup_end);
    assert_eq!(c.get_state(), ControlStateEnum::Idle);
}
