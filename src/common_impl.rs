//! Register values for the direction-symmetric endpoint operations: what to
//! write to arm, stall, unstall and tidy an endpoint. Each operation selects
//! the endpoint in the index register first; the caller then writes the
//! values computed here.
use vstd::prelude::*;

use crate::alloc_endpoint::{EndpointConfig, EndpointType};
use crate::bits::{bool_bit, field8, with_field16, with_field8};
use crate::regs::{
    Csr0h, Csr0l, Dpktbufdis, FifoAdd, FifoSz, Intrrxe, Intrtxe, Intrusbe, Maxp, Rxcsrh, Rxcsrl,
    Txcsrh, Txcsrl,
};
use crate::vals::EndpointDirection;

verus! {

/// The interrupt enables written at bus start-up.
#[derive(Clone, Copy, Debug, PartialEq, Eq, Structural)]
pub struct BusInit {
    pub intrusbe: Intrusbe,
    pub intrrxe: Intrrxe,
    pub intrtxe: Intrtxe,
}

/// A write to an endpoint's control/status register.
#[derive(Clone, Copy, Debug, PartialEq, Eq, Structural)]
pub enum CsrWrite {
    Csr0l(Csr0l),
    Txcsrl(Txcsrl),
    Rxcsrl(Rxcsrl),
}

/// How to arm the TX side of an endpoint.
#[derive(Clone, Copy, Debug, PartialEq, Eq, Structural)]
pub enum TxEnable {
    /// Endpoint 0: set its bit in INTRTXE, set these bits in CSR0L and CSR0H.
    Control { csr0l_set: Csr0l, csr0h_set: Csr0h },
    /// A data endpoint: set bit `index` of INTRTXE, write the FIFO size and
    /// address (run-time FIFO sizing only), the packet size and the control
    /// registers in this order, then flush the FIFO twice if it is not empty.
    /// TXCSRH selects the TX direction and, for an isochronous endpoint, the
    /// isochronous mode.
    Data {
        index: u8,
        fifo_sz: Option<FifoSz>,
        fifo_add: Option<FifoAdd>,
        maxp: Maxp,
        txcsrl: Txcsrl,
        txcsrh: Txcsrh,
    },
}

/// How to arm the RX side of an endpoint.
#[derive(Clone, Copy, Debug, PartialEq, Eq, Structural)]
pub enum RxEnable {
    /// Endpoint 0: set bit 0 of INTRTXE (endpoint 0 has one interrupt for
    /// both directions), set these bits in CSR0L and CSR0H.
    Control { csr0l_set: Csr0l, csr0h_set: Csr0h },
    /// A data endpoint: set bit `index` of INTRRXE, write the FIFO size and
    /// address (run-time FIFO sizing only), the packet size and the control
    /// registers in this order, then flush the FIFO twice if a packet is
    /// waiting in it.
    Data {
        index: u8,
        fifo_sz: Option<FifoSz>,
        fifo_add: Option<FifoAdd>,
        maxp: Maxp,
        rxcsrl: Rxcsrl,
        rxcsrh_iso: Option<Rxcsrh>,
    },
}

/// Only the bit at `offset` set.
pub open spec fn only_bit(offset: u8) -> u8 {
    with_field8(0, offset, 1, 1)
}

/// The write that stalls or unstalls the TX side of endpoint `index`: send
/// stall (bit 5 of CSR0L, bit 4 of TXCSRL); a data endpoint's unstall also
/// clears sent stall (bit 5) and resets the data toggle (bit 6).
pub open spec fn tx_stall_value(index: u8, stalled: bool) -> CsrWrite {
    if index == 0 {
        CsrWrite::Csr0l(Csr0l(with_field8(0, 5, 1, bool_bit(stalled))))
    } else if stalled {
        CsrWrite::Txcsrl(Txcsrl(with_field8(0, 4, 1, 1)))
    } else {
        CsrWrite::Txcsrl(Txcsrl(with_field8(with_field8(with_field8(0, 4, 1, 0), 5, 1, 0), 6, 1, 1)))
    }
}

/// The write that stalls or unstalls the RX side of endpoint `index`: send
/// stall (bit 5 of CSR0L or RXCSRL); stalling endpoint 0 also acknowledges
/// the received packet (bit 6 of CSR0L); a data endpoint's unstall also
/// clears sent stall (bit 6) and resets the data toggle (bit 7).
pub open spec fn rx_stall_value(index: u8, stalled: bool) -> CsrWrite {
    if index == 0 {
        if stalled {
            CsrWrite::Csr0l(Csr0l(with_field8(with_field8(0, 5, 1, 1), 6, 1, 1)))
        } else {
            CsrWrite::Csr0l(Csr0l(with_field8(0, 5, 1, 0)))
        }
    } else if stalled {
        CsrWrite::Rxcsrl(Rxcsrl(with_field8(0, 5, 1, 1)))
    } else {
        CsrWrite::Rxcsrl(Rxcsrl(with_field8(with_field8(with_field8(0, 5, 1, 0), 6, 1, 0), 7, 1, 1)))
    }
}

/// The interrupt enables written at bus start-up: reset, suspend and resume
/// on; RX interrupts of all data endpoints; TX interrupts of endpoint 0 and
/// of all data endpoints.
pub fn bus_init() -> (r: BusInit)
    ensures
        r.intrusbe.0 == with_field8(with_field8(with_field8(0, 2, 1, 1), 0, 1, 1), 1, 1, 1),
        r.intrrxe.0 == 0xfe,
        r.intrtxe.0 == 0xff,
{
    let mut intrusbe = Intrusbe(0);
    intrusbe.set_reset_enable(true);
    intrusbe.set_suspend_enable(true);
    intrusbe.set_resume_enable(true);
    BusInit { intrusbe, intrrxe: Intrrxe(0xfe), intrtxe: Intrtxe(0xff) }
}

/// The value that stalls (`stalled`) or unstalls the TX side of endpoint
/// `index`. Endpoint 0 uses its combined control register; a data endpoint's
/// unstall also clears the sent-stall flag and resets the data toggle.
pub fn ep_tx_stall(index: u8, stalled: bool) -> (r: CsrWrite)
    ensures
        r == tx_stall_value(index, stalled),
{
    if index == 0 {
        let mut w = Csr0l(0);
        w.set_send_stall(stalled);
        CsrWrite::Csr0l(w)
    } else {
        let mut w = Txcsrl(0);
        w.set_send_stall(stalled);
        if !stalled {
            w.set_sent_stall(false);
            w.set_clr_data_tog(true);
        }
        CsrWrite::Txcsrl(w)
    }
}

/// The value that stalls (`stalled`) or unstalls the RX side of endpoint
/// `index`. Stalling endpoint 0 also acknowledges the received packet; a
/// data endpoint's unstall also clears the sent-stall flag and resets the
/// data toggle.
pub fn ep_rx_stall(index: u8, stalled: bool) -> (r: CsrWrite)
    ensures
        r == rx_stall_value(index, stalled),
{
    if index == 0 {
        let mut w = Csr0l(0);
        w.set_send_stall(stalled);
        if stalled {
            w.set_serviced_rx_pkt_rdy(true);
        }
        CsrWrite::Csr0l(w)
    } else {
        let mut w = Rxcsrl(0);
        w.set_send_stall(stalled);
        if !stalled {
            w.set_sent_stall(false);
            w.set_clr_data_tog(true);
        }
        CsrWrite::Rxcsrl(w)
    }
}

/// Whether the RX side of endpoint `index` is stalled, from endpoint 0's
/// control register or the endpoint's RX control register.
pub fn ep_rx_is_stalled(index: u8, csr0l: Csr0l, rxcsrl: Rxcsrl) -> (r: bool)
    ensures
        index == 0 ==> r == (field8(csr0l.0, 5, 1) != 0),
        index != 0 ==> r == (field8(rxcsrl.0, 5, 1) != 0),
{
    if index == 0 {
        csr0l.send_stall()
    } else {
        rxcsrl.send_stall()
    }
}

/// Whether the TX side of endpoint `index` is stalled, from endpoint 0's
/// control register or the endpoint's TX control register.
pub fn ep_tx_is_stalled(index: u8, csr0l: Csr0l, txcsrl: Txcsrl) -> (r: bool)
    ensures
        index == 0 ==> r == (field8(csr0l.0, 5, 1) != 0),
        index != 0 ==> r == (field8(txcsrl.0, 4, 1) != 0),
{
    if index == 0 {
        csr0l.send_stall()
    } else {
        txcsrl.send_stall()
    }
}

/// For one data endpoint: the TX control value with the underrun flag
/// cleared, if it was set, and the RX control value with the overrun flag
/// cleared, if it was set. `None` means nothing to write back.
pub fn check_overrun(txcsrl: Txcsrl, rxcsrl: Rxcsrl) -> (r: (Option<Txcsrl>, Option<Rxcsrl>))
    ensures
        field8(txcsrl.0, 2, 1) != 0 ==> r.0 == Some(Txcsrl(with_field8(txcsrl.0, 2, 1, 0))),
        field8(txcsrl.0, 2, 1) == 0 ==> r.0.is_none(),
        field8(rxcsrl.0, 2, 1) != 0 ==> r.1 == Some(Rxcsrl(with_field8(rxcsrl.0, 2, 1, 0))),
        field8(rxcsrl.0, 2, 1) == 0 ==> r.1.is_none(),
{
    let tx = if txcsrl.under_run() {
        let mut w = txcsrl;
        w.set_under_run(false);
        Some(w)
    } else {
        None
    };
    let rx = if rxcsrl.over_run() {
        let mut w = rxcsrl;
        w.set_over_run(false);
        Some(w)
    } else {
        None
    };
    (tx, rx)
}

/// The RX double-packet-disable register after turning double buffering of
/// endpoint `index` on or off. Endpoint 0 has no double buffering: `None`.
pub fn endpoint_set_rx_dualpacket_enabled(index: u8, enabled: bool, current: Dpktbufdis) -> (r:
    Option<Dpktbufdis>)
    requires
        index < 16,
    ensures
        index == 0 ==> r.is_none(),
        index != 0 ==> r == Some(
            Dpktbufdis(with_field16(current.0, index as u16, 1, bool_bit(!enabled) as u16)),
        ),
{
    if index == 0 {
        None
    } else {
        let mut w = current;
        w.set_dis(index as usize, !enabled);
        Some(w)
    }
}

/// The TX double-packet-disable register after turning double buffering of
/// endpoint `index` on or off. Endpoint 0 has no double buffering: `None`.
pub fn endpoint_set_tx_dualpacket_enabled(index: u8, enabled: bool, current: Dpktbufdis) -> (r:
    Option<Dpktbufdis>)
    requires
        index < 16,
    ensures
        index == 0 ==> r.is_none(),
        index != 0 ==> r == Some(
            Dpktbufdis(with_field16(current.0, index as u16, 1, bool_bit(!enabled) as u16)),
        ),
{
    if index == 0 {
        None
    } else {
        let mut w = current;
        w.set_dis(index as usize, !enabled);
        Some(w)
    }
}

/// The RX double-packet-disable register that enables double buffering on
/// exactly the endpoints of `index_bits` among endpoints 1 to 11.
pub fn endpoints_set_rx_dualpacket_enabled(index_bits: u16) -> (r: Dpktbufdis)
    ensures
        r.0 == !index_bits & 0x0ffe,
{
    Dpktbufdis(!index_bits & 0x0ffe)
}

/// The TX double-packet-disable register that enables double buffering on
/// exactly the endpoints of `index_bits` among endpoints 1 to 11.
pub fn endpoints_set_tx_dualpacket_enabled(index_bits: u16) -> (r: Dpktbufdis)
    ensures
        r.0 == !index_bits & 0x0ffe,
{
    Dpktbufdis(!index_bits & 0x0ffe)
}

/// The CSR0L and CSR0H bits that arming endpoint 0 sets: acknowledge a
/// stale received packet and setup end, and flush the FIFO.
fn control_enable() -> (r: (Csr0l, Csr0h))
    ensures
        r.0.0 == with_field8(with_field8(0, 6, 1, 1), 7, 1, 1),
        r.1.0 == with_field8(0, 0, 1, 1),
{
    let mut l = Csr0l(0);
    l.set_serviced_rx_pkt_rdy(true);
    l.set_serviced_setup_end(true);
    let mut h = Csr0h(0);
    h.set_flush_fifo(true);
    (l, h)
}

/// FIFO size and address registers for a partition of `2^size_bits` bytes at
/// `addr_8bytes`.
fn fifo_regs(size_bits: u8, addr_8bytes: u16) -> (r: (FifoSz, FifoAdd))
    requires
        size_bits >= 3,
    ensures
        r.0.0 == with_field8(with_field8(0, 0, 0x07, (size_bits - 3) as u8), 4, 1, 1),
        r.1.0 == with_field16(0, 0, 0x1fff, addr_8bytes),
{
    let mut sz = FifoSz(0);
    sz.set_sz(size_bits - 3);
    sz.set_dpb(true);
    let mut add = FifoAdd(0);
    add.set_add(addr_8bytes);
    (sz, add)
}

/// The plan that `ep_tx_enable` returns.
pub open spec fn tx_enable_spec(index: u8, config: EndpointConfig, dynamic_fifo: bool) -> TxEnable {
    if index == 0 {
        TxEnable::Control {
            csr0l_set: Csr0l(with_field8(with_field8(0, 6, 1, 1), 7, 1, 1)),
            csr0h_set: Csr0h(with_field8(0, 0, 1, 1)),
        }
    } else {
        TxEnable::Data {
            index,
            fifo_sz: if dynamic_fifo {
                Some(
                    FifoSz(
                        with_field8(
                            with_field8(0, 0, 0x07, (config.tx_fifo_size_bits - 3) as u8),
                            4,
                            1,
                            1,
                        ),
                    ),
                )
            } else {
                None
            },
            fifo_add: if dynamic_fifo {
                Some(FifoAdd(with_field16(0, 0, 0x1fff, config.tx_fifo_addr_8bytes)))
            } else {
                None
            },
            maxp: Maxp(with_field16(0, 0, 0x07ff, config.tx_max_packet_size)),
            txcsrl: Txcsrl(only_bit(6)),
            txcsrh: Txcsrh(
                with_field8(
                    with_field8(0, 5, 1, 1),
                    6,
                    1,
                    bool_bit(config.ep_type == EndpointType::Isochronous),
                ),
            ),
        }
    }
}

/// How to arm the TX side of endpoint `index` with configuration `config`;
/// `dynamic_fifo` says whether the chip sizes its FIFOs at run time.
pub fn ep_tx_enable(index: u8, config: &EndpointConfig, dynamic_fifo: bool) -> (r: TxEnable)
    requires
        index != 0 && dynamic_fifo ==> config.tx_fifo_size_bits >= 3,
    ensures
        r == tx_enable_spec(index, *config, dynamic_fifo),
{
    if index == 0 {
        let (l, h) = control_enable();
        return TxEnable::Control { csr0l_set: l, csr0h_set: h };
    }
    let (fifo_sz, fifo_add) = if dynamic_fifo {
        let (sz, add) = fifo_regs(config.tx_fifo_size_bits, config.tx_fifo_addr_8bytes);
        (Some(sz), Some(add))
    } else {
        (None, None)
    };
    let mut maxp = Maxp(0);
    maxp.set_maxp(config.tx_max_packet_size);
    let mut txcsrl = Txcsrl(0);
    txcsrl.set_clr_data_tog(true);
    let mut txcsrh = Txcsrh(0);
    txcsrh.set_mode(EndpointDirection::Tx);
    txcsrh.set_iso(config.ep_type == EndpointType::Isochronous);
    TxEnable::Data { index, fifo_sz, fifo_add, maxp, txcsrl, txcsrh }
}

/// The plan that `ep_rx_enable` returns.
pub open spec fn rx_enable_spec(index: u8, config: EndpointConfig, dynamic_fifo: bool) -> RxEnable {
    if index == 0 {
        RxEnable::Control {
            csr0l_set: Csr0l(with_field8(with_field8(0, 6, 1, 1), 7, 1, 1)),
            csr0h_set: Csr0h(with_field8(0, 0, 1, 1)),
        }
    } else {
        RxEnable::Data {
            index,
            fifo_sz: if dynamic_fifo {
                Some(
                    FifoSz(
                        with_field8(
                            with_field8(0, 0, 0x07, (config.rx_fifo_size_bits - 3) as u8),
                            4,
                            1,
                            1,
                        ),
                    ),
                )
            } else {
                None
            },
            fifo_add: if dynamic_fifo {
                Some(FifoAdd(with_field16(0, 0, 0x1fff, config.rx_fifo_addr_8bytes)))
            } else {
                None
            },
            maxp: Maxp(with_field16(0, 0, 0x07ff, config.rx_max_packet_size)),
            rxcsrl: Rxcsrl(only_bit(7)),
            rxcsrh_iso: if config.ep_type == EndpointType::Isochronous {
                Some(Rxcsrh(only_bit(6)))
            } else {
                None
            },
        }
    }
}

/// How to arm the RX side of endpoint `index` with configuration `config`;
/// `dynamic_fifo` says whether the chip sizes its FIFOs at run time.
pub fn ep_rx_enable(index: u8, config: &EndpointConfig, dynamic_fifo: bool) -> (r: RxEnable)
    requires
        index != 0 && dynamic_fifo ==> config.rx_fifo_size_bits >= 3,
    ensures
        r == rx_enable_spec(index, *config, dynamic_fifo),
{
    if index == 0 {
        let (l, h) = control_enable();
        return RxEnable::Control { csr0l_set: l, csr0h_set: h };
    }
    let (fifo_sz, fifo_add) = if dynamic_fifo {
        let (sz, add) = fifo_regs(config.rx_fifo_size_bits, config.rx_fifo_addr_8bytes);
        (Some(sz), Some(add))
    } else {
        (None, None)
    };
    let mut maxp = Maxp(0);
    maxp.set_maxp(config.rx_max_packet_size);
    let mut rxcsrl = Rxcsrl(0);
    rxcsrl.set_clr_data_tog(true);
    let rxcsrh_iso = if config.ep_type == EndpointType::Isochronous {
        let mut h = Rxcsrh(0);
        h.set_iso(true);
        Some(h)
    } else {
        None
    };
    RxEnable::Data { index, fifo_sz, fifo_add, maxp, rxcsrl, rxcsrh_iso }
}

} // verus!
