//! The decisions of a polled bus: what one poll reports, and how a stall or
//! an enable request on an endpoint is carried out.
use vstd::prelude::*;

use crate::alloc_endpoint::{Direction, EndpointConfig};
use crate::bits::field8;
use crate::common_impl::{
    ep_rx_enable, ep_rx_stall, ep_tx_enable, ep_tx_stall, rx_enable_spec, rx_stall_value,
    tx_enable_spec, tx_stall_value, CsrWrite, RxEnable, TxEnable,
};
use crate::control::{interrupt_spec, ControlState, ControlStateEnum};
use crate::flags::{BusEvent, EnabledMask, IrqFlags, PollResult, with_bit};
use crate::regs::Csr0l;

verus! {

/// Endpoint 0's control register and received byte count, read with index 0
/// selected.
#[derive(Clone, Copy, Debug, PartialEq, Eq, Structural)]
pub struct Ep0Status {
    pub csr0l: Csr0l,
    pub count: u8,
}

/// What one poll reports, whether endpoint 0's setup-end condition must be
/// acknowledged (by setting the serviced-setup-end bit of CSR0L), and
/// whether a packet that is not 8 bytes long came where a setup packet was
/// due (it is not reported as a setup packet).
#[derive(Clone, Copy, Debug, PartialEq, Eq, Structural)]
pub struct PollOutcome {
    pub result: PollResult,
    pub service_setup_end: bool,
    pub malformed_setup: bool,
}

/// How to arm one side of an endpoint.
#[derive(Clone, Copy, Debug, PartialEq, Eq, Structural)]
pub enum EnablePlan {
    Tx(TxEnable),
    Rx(RxEnable),
}

/// One poll of the bus. A pending bus event is reported first, alone.
/// Otherwise a raised endpoint-0 flag is handled from `ep0` (when given), an
/// acknowledged status stage is completed, RX flags of endpoints whose data
/// has been read are dropped (`rx_ready` has bit `i` set while endpoint `i`
/// still holds a received packet), and the pending data is reported.
pub fn poll(
    control: &mut ControlState,
    flags: &mut IrqFlags,
    ep0: Option<Ep0Status>,
    rx_ready: u16,
) -> (r: PollOutcome)
    ensures
        old(flags).reset ==> r == (PollOutcome {
            result: PollResult::Reset,
            service_setup_end: false,
            malformed_setup: false,
        }) && *final(control) == *old(control) && *final(flags) == (IrqFlags {
            reset: false,
            ..*old(flags)
        }),
        !old(flags).reset && old(flags).resume ==> r == (PollOutcome {
            result: PollResult::Resume,
            service_setup_end: false,
            malformed_setup: false,
        }) && *final(control) == *old(control) && *final(flags) == (IrqFlags {
            resume: false,
            ..*old(flags)
        }),
        !old(flags).reset && !old(flags).resume && old(flags).suspend ==> r == (PollOutcome {
            result: PollResult::Suspend,
            service_setup_end: false,
            malformed_setup: false,
        }) && *final(control) == *old(control) && *final(flags) == (IrqFlags {
            suspend: false,
            ..*old(flags)
        }),
        !old(flags).reset && !old(flags).resume && !old(flags).suspend ==> ({
            let handled = old(flags).ep0 && ep0 is Some;
            let st = ep0->Some_0;
            let irq = interrupt_spec(
                *old(control),
                field8(st.csr0l.0, 0, 1) != 0,
                field8(st.csr0l.0, 1, 1) != 0,
                field8(st.csr0l.0, 4, 1) != 0,
                st.count,
            );
            let mid = if handled {
                irq.0
            } else {
                *old(control)
            };
            let tx1 = if handled && irq.1.tx_complete {
                old(flags).ep_tx | 1
            } else {
                old(flags).ep_tx
            };
            let rx1 = if handled && irq.1.rx_ready {
                old(flags).ep_rx | 1
            } else {
                old(flags).ep_rx
            };
            let ep0_1 = !handled && old(flags).ep0;
            let acc = mid.state == ControlStateEnum::Accepted;
            let tx2 = if acc {
                tx1 | 1
            } else {
                tx1
            };
            let rx2 = if acc {
                rx1 & 0xfffe
            } else {
                rx1
            };
            let ep0_2 = if acc {
                ep0_1 || rx1 & 1 != 0
            } else {
                ep0_1
            };
            let rx3 = rx2 & rx_ready;
            let setup = handled && irq.1.setup;
            &&& *final(control) == if acc {
                ControlState { state: ControlStateEnum::Idle, ..mid }
            } else {
                mid
            }
            &&& *final(flags) == (IrqFlags { ep0: ep0_2, ep_tx: 0, ep_rx: rx3, ..*old(flags) })
            &&& r.service_setup_end == (handled && irq.1.service_setup_end)
            &&& r.malformed_setup == (handled && irq.1.malformed_setup)
            &&& r.result == if tx2 != 0 || rx3 != 0 || setup {
                PollResult::Data {
                    ep_out: rx3,
                    ep_in_complete: tx2,
                    ep_setup: if setup {
                        1
                    } else {
                        0
                    },
                }
            } else {
                PollResult::Quiet
            }
        }),
{
    match flags.take_bus_event() {
        Some(BusEvent::Reset) => {
            return PollOutcome { result: PollResult::Reset, service_setup_end: false, malformed_setup: false };
        },
        Some(BusEvent::Resume) => {
            return PollOutcome { result: PollResult::Resume, service_setup_end: false, malformed_setup: false };
        },
        Some(BusEvent::Suspend) => {
            return PollOutcome { result: PollResult::Suspend, service_setup_end: false, malformed_setup: false };
        },
        Some(BusEvent::PowerDetected) | None => {},
    }
    let mut setup = false;
    let mut service_setup_end = false;
    let mut malformed_setup = false;
    if flags.ep0 {
        if let Some(st) = ep0 {
            let irq = flags.service_ep0(control, st.csr0l, st.count);
            setup = irq.setup;
            service_setup_end = irq.service_setup_end;
            malformed_setup = irq.malformed_setup;
        }
    }
    flags.finish_accepted(control);
    flags.ep_rx = flags.ep_rx & rx_ready;
    let result = flags.take_data(setup);
    PollOutcome { result, service_setup_end, malformed_setup }
}

/// Stalls or unstalls endpoint `index` in direction `dir`: the value to write
/// to its control register (after selecting the index). A stall on endpoint 0
/// aborts the control transfer: the phase machine returns to `Idle` with
/// nothing left to send.
pub fn set_stalled(control: &mut ControlState, index: u8, dir: Direction, stalled: bool) -> (r:
    CsrWrite)
    ensures
        dir == Direction::In ==> r == tx_stall_value(index, stalled),
        dir == Direction::Out ==> r == rx_stall_value(index, stalled),
        index == 0 && stalled ==> *final(control) == (ControlState {
            state: ControlStateEnum::Idle,
            tx_len: 0,
        }),
        !(index == 0 && stalled) ==> *final(control) == *old(control),
{
    let w = match dir {
        Direction::In => ep_tx_stall(index, stalled),
        Direction::Out => ep_rx_stall(index, stalled),
    };
    if index == 0 {
        control.on_stall(stalled);
    }
    w
}

/// Enables or disables endpoint `index` in direction `dir`. Enabling marks it
/// in `mask` and returns how to arm it from `config`; disabling only clears
/// its mark, with nothing to write.
pub fn endpoint_set_enabled(
    mask: &mut EnabledMask,
    index: u8,
    dir: Direction,
    enabled: bool,
    config: &EndpointConfig,
    dynamic_fifo: bool,
) -> (r: Option<EnablePlan>)
    requires
        index < 16,
        enabled && index != 0 && dynamic_fifo ==> if dir == Direction::In {
            config.tx_fifo_size_bits >= 3
        } else {
            config.rx_fifo_size_bits >= 3
        },
    ensures
        dir == Direction::In ==> *final(mask) == (EnabledMask {
            tx: with_bit(old(mask).tx, index, enabled),
            rx: old(mask).rx,
        }),
        dir == Direction::Out ==> *final(mask) == (EnabledMask {
            tx: old(mask).tx,
            rx: with_bit(old(mask).rx, index, enabled),
        }),
        !enabled ==> r.is_none(),
        enabled && dir == Direction::In ==> r == Some(
            EnablePlan::Tx(tx_enable_spec(index, *config, dynamic_fifo)),
        ),
        enabled && dir == Direction::Out ==> r == Some(
            EnablePlan::Rx(rx_enable_spec(index, *config, dynamic_fifo)),
        ),
{
    mask.set_enabled(index, dir, enabled);
    if !enabled {
        return None;
    }
    match dir {
        Direction::In => Some(EnablePlan::Tx(ep_tx_enable(index, config, dynamic_fifo))),
        Direction::Out => Some(EnablePlan::Rx(ep_rx_enable(index, config, dynamic_fifo))),
    }
}

} // verus!
