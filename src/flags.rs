//! The flags through which the interrupt handler hands hardware events to
//! the foreground, and the per-endpoint "enabled" masks.
use vstd::prelude::*;

use crate::alloc_endpoint::Direction;
use crate::bits::{field16, field8};
use crate::control::{interrupt_spec, ControlState, ControlStateEnum, Ep0Interrupt};
use crate::regs::{Csr0l, Intrrx, Intrtx, Intrusb};

verus! {

/// Bit `i` alone, as a 16-bit endpoint mask.
pub open spec fn ep_bit(i: u8) -> u16 {
    (1u16 << (i as u16)) as u16
}

/// Bits 1 to `n - 1`: the data endpoints of a chip with `n` endpoints.
pub open spec fn data_endpoint_mask(n: u16) -> u16 {
    ((((1u32 << (n as u32)) as u32) - 1) as u16 & 0xfffe) as u16
}

/// A bus-level event.
#[derive(Clone, Copy, Debug, PartialEq, Eq, Structural)]
pub enum BusEvent {
    Reset,
    Resume,
    Suspend,
    /// Bus power is present; reported once, by the first poll of the
    /// event-driven binding.
    PowerDetected,
}

/// What one poll of the bus reports.
#[derive(Clone, Copy, Debug, PartialEq, Eq, Structural)]
pub enum PollResult {
    Quiet,
    Reset,
    Suspend,
    Resume,
    Data { ep_out: u16, ep_in_complete: u16, ep_setup: u16 },
}

/// Events raised by the interrupt handler and not yet consumed.
#[derive(Clone, Copy, Debug, PartialEq, Eq, Structural)]
pub struct IrqFlags {
    pub reset: bool,
    pub suspend: bool,
    pub resume: bool,
    /// Endpoint 0 raised its interrupt.
    pub ep0: bool,
    /// Endpoints (one bit each) whose IN transfer completed.
    pub ep_tx: u16,
    /// Endpoints (one bit each) that hold received data.
    pub ep_rx: u16,
}

/// Which endpoints are enabled, one bit per index and direction.
#[derive(Clone, Copy, Debug, PartialEq, Eq, Structural)]
pub struct EnabledMask {
    pub tx: u16,
    pub rx: u16,
}

/// The mask with bit `index` set or cleared.
pub open spec fn with_bit(mask: u16, index: u8, on: bool) -> u16 {
    if on {
        mask | ep_bit(index)
    } else {
        mask & !ep_bit(index)
    }
}

impl EnabledMask {
    /// No endpoint enabled.
    pub fn new() -> (r: EnabledMask)
        ensures
            r == (EnabledMask { tx: 0, rx: 0 }),
    {
        EnabledMask { tx: 0, rx: 0 }
    }

    /// Marks endpoint `index` in direction `dir` as enabled or disabled.
    pub fn set_enabled(&mut self, index: u8, dir: Direction, enabled: bool)
        requires
            index < 16,
        ensures
            dir == Direction::In ==> *final(self) == (EnabledMask {
                tx: with_bit(old(self).tx, index, enabled),
                rx: old(self).rx,
            }),
            dir == Direction::Out ==> *final(self) == (EnabledMask {
                tx: old(self).tx,
                rx: with_bit(old(self).rx, index, enabled),
            }),
    {
        let bit: u16 = 1u16 << (index as u16);
        match dir {
            Direction::In => {
                self.tx = if enabled {
                    self.tx | bit
                } else {
                    self.tx & !bit
                };
            },
            Direction::Out => {
                self.rx = if enabled {
                    self.rx | bit
                } else {
                    self.rx & !bit
                };
            },
        }
    }

    /// Whether endpoint `index` is enabled in direction `dir`.
    pub fn is_enabled(&self, index: u8, dir: Direction) -> (r: bool)
        requires
            index < 16,
        ensures
            r == (field16(
                if dir == Direction::In {
                    self.tx
                } else {
                    self.rx
                },
                index as u16,
                1,
            ) != 0),
    {
        let m = match dir {
            Direction::In => self.tx,
            Direction::Out => self.rx,
        };
        (m >> (index as u16)) & 1 != 0
    }
}

/// Disabling an endpoint that is not enabled leaves the mask as it is, and
/// disabling twice is the same as disabling once.
pub proof fn lemma_disable_idempotent(mask: u16, index: u8)
    requires
        index < 16,
    ensures
        field16(mask, index as u16, 1) == 0 ==> with_bit(mask, index, false) == mask,
        with_bit(with_bit(mask, index, false), index, false) == with_bit(mask, index, false),
        field16(with_bit(mask, index, false), index as u16, 1) == 0,
{
    let i = index as u16;
    assert(((mask >> i) & 1) == 0 ==> mask & !((1u16 << i) as u16) == mask) by (bit_vector)
        requires
            i < 16,
    ;
    assert((mask & !((1u16 << i) as u16)) & !((1u16 << i) as u16) == mask & !((1u16 << i) as u16))
        by (bit_vector);
    assert(((mask & !((1u16 << i) as u16)) >> i) & 1 == 0) by (bit_vector)
        requires
            i < 16,
    ;
}

impl IrqFlags {
    /// Nothing pending.
    pub fn new() -> (r: IrqFlags)
        ensures
            r == (IrqFlags {
                reset: false,
                suspend: false,
                resume: false,
                ep0: false,
                ep_tx: 0,
                ep_rx: 0,
            }),
    {
        IrqFlags { reset: false, suspend: false, resume: false, ep0: false, ep_tx: 0, ep_rx: 0 }
    }

    /// Records the interrupt status registers of a chip with `endpoints`
    /// endpoints: bus events, endpoint 0, and the data endpoints' TX and RX
    /// interrupts. Flags already raised stay raised.
    pub fn on_interrupt(&mut self, intrusb: Intrusb, intrtx: Intrtx, intrrx: Intrrx, endpoints: u16)
        requires
            1 <= endpoints <= 16,
        ensures
            final(self).reset == (old(self).reset || field8(intrusb.0, 2, 1) != 0),
            final(self).suspend == (old(self).suspend || field8(intrusb.0, 0, 1) != 0),
            final(self).resume == (old(self).resume || field8(intrusb.0, 1, 1) != 0),
            final(self).ep0 == (old(self).ep0 || field16(intrtx.0, 0, 1) != 0),
            final(self).ep_tx == old(self).ep_tx | (intrtx.0 & data_endpoint_mask(endpoints)),
            final(self).ep_rx == old(self).ep_rx | (intrrx.0 & data_endpoint_mask(endpoints)),
    {
        if intrusb.reset() {
            self.reset = true;
        }
        if intrusb.suspend() {
            self.suspend = true;
        }
        if intrusb.resume() {
            self.resume = true;
        }
        if intrtx.ep_tx(0) {
            self.ep0 = true;
        }
        let e = endpoints as u32;
        assert(1 <= (1u32 << e) <= 65536) by (bit_vector)
            requires
                e <= 16,
        ;
        let mask: u16 = (((1u32 << e) - 1) as u16) & 0xfffe;
        self.ep_tx = self.ep_tx | (intrtx.0 & mask);
        self.ep_rx = self.ep_rx | (intrrx.0 & mask);
    }

    /// Takes the first pending bus event (reset, then resume, then
    /// suspend), clearing its flag.
    pub fn take_bus_event(&mut self) -> (r: Option<BusEvent>)
        ensures
            old(self).reset ==> r == Some(BusEvent::Reset) && *final(self) == (IrqFlags {
                reset: false,
                ..*old(self)
            }),
            !old(self).reset && old(self).resume ==> r == Some(BusEvent::Resume) && *final(self)
                == (IrqFlags { resume: false, ..*old(self) }),
            !old(self).reset && !old(self).resume && old(self).suspend ==> r == Some(
                BusEvent::Suspend,
            ) && *final(self) == (IrqFlags { suspend: false, ..*old(self) }),
            !old(self).reset && !old(self).resume && !old(self).suspend ==> r.is_none()
                && *final(self) == *old(self),
    {
        if self.reset {
            self.reset = false;
            Some(BusEvent::Reset)
        } else if self.resume {
            self.resume = false;
            Some(BusEvent::Resume)
        } else if self.suspend {
            self.suspend = false;
            Some(BusEvent::Suspend)
        } else {
            None
        }
    }

    /// The next bus event for the event-driven binding: power detected on the
    /// first poll (`inited` still false), then the first pending one of
    /// resume, reset and suspend, clearing its flag.
    pub fn take_async_bus_event(&mut self, inited: &mut bool) -> (r: Option<BusEvent>)
        ensures
            !*old(inited) ==> r == Some(BusEvent::PowerDetected) && *final(inited) && *final(self)
                == *old(self),
            *old(inited) ==> *final(inited),
            *old(inited) && old(self).resume ==> r == Some(BusEvent::Resume) && *final(self) == (
            IrqFlags { resume: false, ..*old(self) }),
            *old(inited) && !old(self).resume && old(self).reset ==> r == Some(BusEvent::Reset)
                && *final(self) == (IrqFlags { reset: false, ..*old(self) }),
            *old(inited) && !old(self).resume && !old(self).reset && old(self).suspend ==> r
                == Some(BusEvent::Suspend) && *final(self) == (IrqFlags {
                suspend: false,
                ..*old(self)
            }),
            *old(inited) && !old(self).resume && !old(self).reset && !old(self).suspend ==> r.is_none()
                && *final(self) == *old(self),
    {
        if !*inited {
            *inited = true;
            Some(BusEvent::PowerDetected)
        } else if self.resume {
            self.resume = false;
            Some(BusEvent::Resume)
        } else if self.reset {
            self.reset = false;
            Some(BusEvent::Reset)
        } else if self.suspend {
            self.suspend = false;
            Some(BusEvent::Suspend)
        } else {
            None
        }
    }

    /// Handles a raised endpoint-0 flag, given endpoint 0's control register
    /// and byte count: the phase machine moves on, the flag is cleared, and a
    /// sent or received data-stage packet is recorded for endpoint 0.
    pub fn service_ep0(&mut self, control: &mut ControlState, csr0l: Csr0l, count: u8) -> (r:
        Ep0Interrupt)
        ensures
            ({
                let out = interrupt_spec(
                    *old(control),
                    field8(csr0l.0, 0, 1) != 0,
                    field8(csr0l.0, 1, 1) != 0,
                    field8(csr0l.0, 4, 1) != 0,
                    count,
                );
                &&& *final(control) == out.0
                &&& r == out.1
                &&& *final(self) == (IrqFlags {
                    ep0: false,
                    ep_tx: if out.1.tx_complete {
                        old(self).ep_tx | 1
                    } else {
                        old(self).ep_tx
                    },
                    ep_rx: if out.1.rx_ready {
                        old(self).ep_rx | 1
                    } else {
                        old(self).ep_rx
                    },
                    ..*old(self)
                })
            }),
    {
        self.ep0 = false;
        let r = control.on_ep0_interrupt(
            csr0l.rx_pkt_rdy(),
            csr0l.tx_pkt_rdy(),
            csr0l.setup_end(),
            count,
        );
        if r.tx_complete {
            self.ep_tx = self.ep_tx | 1;
        }
        if r.rx_ready {
            self.ep_rx = self.ep_rx | 1;
        }
        r
    }

    /// Completes a status stage that the stack acknowledged with a
    /// zero-length write: endpoint 0 is reported as IN-complete and the phase
    /// machine returns to `Idle`. Received data that is pending for endpoint 0
    /// is left for the next poll, as a new endpoint-0 event.
    pub fn finish_accepted(&mut self, control: &mut ControlState)
        ensures
            old(control).state == ControlStateEnum::Accepted ==> *final(control) == (ControlState {
                state: ControlStateEnum::Idle,
                ..*old(control)
            }) && final(self).ep_tx == old(self).ep_tx | 1 && final(self).ep_rx == old(self).ep_rx
                & 0xfffe && final(self).ep0 == (old(self).ep0 || old(self).ep_rx & 1 != 0)
                && final(self).reset == old(self).reset && final(self).suspend
                == old(self).suspend && final(self).resume == old(self).resume,
            old(control).state != ControlStateEnum::Accepted ==> *final(control) == *old(control)
                && *final(self) == *old(self),
    {
        if control.state == ControlStateEnum::Accepted {
            if self.ep_rx & 1 != 0 {
                self.ep0 = true;
                self.ep_rx = self.ep_rx & 0xfffe;
            } else {
                let x = self.ep_rx;
                assert(x & 1 == 0 ==> x & 0xfffe == x) by (bit_vector);
            }
            self.ep_tx = self.ep_tx | 1;
            control.state = ControlStateEnum::Idle;
        }
    }

    /// Clears the RX flag of endpoint `index` once its data has been read.
    pub fn rx_drained(&mut self, index: u8)
        requires
            index < 16,
        ensures
            *final(self) == (IrqFlags { ep_rx: with_bit(old(self).ep_rx, index, false), ..*old(self) }),
    {
        self.ep_rx = self.ep_rx & !(1u16 << (index as u16));
    }

    /// Ends a poll: hands out and clears the IN-complete flags, hands out the
    /// pending RX flags, and reports data when there is any or when a setup
    /// packet arrived.
    pub fn take_data(&mut self, setup: bool) -> (r: PollResult)
        ensures
            *final(self) == (IrqFlags { ep_tx: 0, ..*old(self) }),
            (old(self).ep_tx != 0 || old(self).ep_rx != 0 || setup) ==> r == (PollResult::Data {
                ep_out: old(self).ep_rx,
                ep_in_complete: old(self).ep_tx,
                ep_setup: if setup {
                    1
                } else {
                    0
                },
            }),
            !(old(self).ep_tx != 0 || old(self).ep_rx != 0 || setup) ==> r == PollResult::Quiet,
    {
        let in_complete = self.ep_tx;
        self.ep_tx = 0;
        let out = self.ep_rx;
        if in_complete != 0 || out != 0 || setup {
            PollResult::Data {
                ep_out: out,
                ep_in_complete: in_complete,
                ep_setup: if setup {
                    1
                } else {
                    0
                },
            }
        } else {
            PollResult::Quiet
        }
    }
}

} // verus!
