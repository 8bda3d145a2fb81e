use musb::regs::{Csr0l, Devctl, Dpktbufdis, FifoSz, Index, Intrtxe, Maxp, Power, Txcsrh, Fifosize};
use musb::vals::{EndpointDirection, HsModeStatus, VbusLevel};

#[test]
fn single_bit_fields() {
    let mut c = Csr0l(0);
    c.set_send_stall(true);
    assert_eq!(c.0, 0b0010_0000);
    assert!(c.send_stall());
    assert!(!c.rx_pkt_rdy());
    c.set_rx_pkt_rdy(true);
    c.set_send_stall(false);
    assert_eq!(c.0, 0b1);
    assert_eq!(Csr0l::default().0, 0);
}

#[test]
fn multi_bit_fields() {
    let mut i = Index(0xf0);
    i.set_index(0x1b);
    assert_eq!(i.0, 0xfb);
    assert_eq!(i.index(), 0x0b);
    let mut m = Maxp(0xf800);
    m.set_maxp(64);
    assert_eq!(m.0, 0xf840);
    assert_eq!(m.maxp(), 64);
    let mut f = FifoSz(0);
    f.set_sz(3);
    f.set_dpb(true);
    assert_eq!(f.0, 0x13);
    let fs = Fifosize(0xf6);
    assert_eq!(fs.tx_fifo_size(), 6);
    assert_eq!(fs.rx_fifo_size(), 0xf);
}

#[test]
fn indexed_fields() {
    let mut e = Intrtxe(0);
    e.set_ep_txe(0, true);
    e.set_ep_txe(9, true);
    assert_eq!(e.0, 0x0201);
    assert!(e.ep_txe(9));
    assert!(!e.ep_txe(8));
    let mut d = Dpktbufdis(0xffff);
    d.set_dis(3, false);
    assert_eq!(d.0, 0xfff7);
    assert!(!d.dis(3));
}

#[test]
fn enum_fields() {
    let mut d = Devctl(0);
    d.set_vbus(VbusLevel::AboveVbusValid);
    assert_eq!(d.0, 0b0001_1000);
    assert_eq!(d.vbus(), VbusLevel::AboveVbusValid);
    let mut p = Power(0);
    p.set_hs_mode(HsModeStatus::HighSpeed);
    assert_eq!(p.0, 0x10);
    assert_eq!(p.hs_mode(), HsModeStatus::HighSpeed);
    let mut t = Txcsrh(0);
    t.set_mode(EndpointDirection::Tx);
    assert_eq!(t.0, 0x20);
    assert_eq!(VbusLevel::from_bits(6), VbusLevel::AboveAvalidBelowVbusValid);
    assert_eq!(VbusLevel::AboveSessionEndBelowAvalid.to_bits(), 1);
}
