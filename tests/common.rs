use musb::alloc_endpoint::{EndpointData, EndpointType};
use musb::common_impl::{
    bus_init, check_overrun, endpoint_set_rx_dualpacket_enabled, endpoints_set_tx_dualpacket_enabled,
    ep_rx_enable, ep_rx_is_stalled, ep_rx_stall, ep_tx_enable, ep_tx_is_stalled, ep_tx_stall,
    CsrWrite, RxEnable, TxEnable,
};
use musb::regs::{Csr0l, Dpktbufdis, Rxcsrl, Txcsrl};

#[test]
fn bus_init_values() {
    let b = bus_init();
    assert_eq!(b.intrusbe.0, 0b111);
    assert_eq!(b.intrrxe.0, 0xfe);
    assert_eq!(b.intrtxe.0, 0xff);
}

#[test]
fn stall_values() {
    assert_eq!(ep_tx_stall(0, true), CsrWrite::Csr0l(Csr0l(0x20)));
    assert_eq!(ep_rx_stall(0, true), CsrWrite::Csr0l(Csr0l(0x60)));
    assert_eq!(ep_rx_stall(0, false), CsrWrite::Csr0l(Csr0l(0)));
    assert_eq!(ep_tx_stall(2, true), CsrWrite::Txcsrl(Txcsrl(0x10)));
    assert_eq!(ep_tx_stall(2, false), CsrWrite::Txcsrl(Txcsrl(0x40)));
    assert_eq!(ep_rx_stall(2, true), CsrWrite::Rxcsrl(Rxcsrl(0x20)));
    assert_eq!(ep_rx_stall(2, false), CsrWrite::Rxcsrl(Rxcsrl(0x80)));
    assert!(ep_tx_is_stalled(0, Csr0l(0x20), Txcsrl(0)));
    assert!(!ep_tx_is_stalled(1, Csr0l(0x20), Txcsrl(0)));
    assert!(ep_tx_is_stalled(1, Csr0l(0), Txcsrl(0x10)));
    assert!(ep_rx_is_stalled(1, Csr0l(0), Rxcsrl(0x20)));
}

#[test]
fn overrun_flags_are_cleared() {
    assert_eq!(check_overrun(Txcsrl(0x05), Rxcsrl(0x01)), (Some(Txcsrl(0x01)), None));
    assert_eq!(check_overrun(Txcsrl(0), Rxcsrl(0x05)), (None, Some(Rxcsrl(0x01))));
}

#[test]
fn dual_packet_registers() {
    assert_eq!(endpoint_set_rx_dualpacket_enabled(0, true, Dpktbufdis(0xffff)), None);
    assert_eq!(
        endpoint_set_rx_dualpacket_enabled(2, true, Dpktbufdis(0xffff)),
        Some(Dpktbufdis(0xfffb))
    );
    assert_eq!(
        endpoint_set_rx_dualpacket_enabled(2, false, Dpktbufdis(0)),
        Some(Dpktbufdis(0x0004))
    );
    assert_eq!(endpoints_set_tx_dualpacket_enabled(0b110), Dpktbufdis(0x0ff8));
}

#[test]
fn enable_plans() {
    let mut ep = EndpointData::unused().ep_conf;
    ep.ep_type = EndpointType::Isochronous;
    ep.tx_max_packet_size = 512;
    ep.tx_fifo_size_bits = 9;
    ep.tx_fifo_addr_8bytes = 24;
    match ep_tx_enable(3, &ep, true) {
        TxEnable::Data { index, fifo_sz, fifo_add, maxp, txcsrl, txcsrh } => {
            assert_eq!(index, 3);
            assert_eq!(fifo_sz.unwrap().0, 0x16);
            assert_eq!(fifo_add.unwrap().0, 24);
            assert_eq!(maxp.0, 512);
            assert_eq!(txcsrl.0, 0x40);
            // TX mode and isochronous mode, in the last value written.
            assert_eq!(txcsrh.0, 0x60);
        }
        _ => panic!("expected a data endpoint"),
    }
    match ep_tx_enable(0, &ep, true) {
        TxEnable::Control { csr0l_set, csr0h_set } => {
            assert_eq!(csr0l_set.0, 0xc0);
            assert_eq!(csr0h_set.0, 0x01);
        }
        _ => panic!("expected endpoint 0"),
    }
    ep.ep_type = EndpointType::Bulk;
    match ep_tx_enable(3, &ep, false) {
        TxEnable::Data { txcsrh, fifo_sz, .. } => {
            assert_eq!(txcsrh.0, 0x20);
            assert!(fifo_sz.is_none());
        }
        _ => panic!("expected a data endpoint"),
    }
    ep.rx_max_packet_size = 64;
    match ep_rx_enable(1, &ep, false) {
        RxEnable::Data { index, fifo_sz, fifo_add, maxp, rxcsrl, rxcsrh_iso } => {
            assert_eq!(index, 1);
            assert!(fifo_sz.is_none() && fifo_add.is_none() && rxcsrh_iso.is_none());
            assert_eq!(maxp.0, 64);
            assert_eq!(rxcsrl.0, 0x80);
        }
        _ => panic!("expected a data endpoint"),
    }
}
