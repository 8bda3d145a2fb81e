//! The control-transfer phase machine of endpoint 0.
//!
//! The controller only reports "packet received" and "packet sent" for
//! endpoint 0 and offers one "data end" bit that must be set on the last
//! packet of the data stage. Which packet is the last is not known to the
//! hardware, so it is tracked here from the setup packet's length field and
//! from the lengths of the packets that go by.
use vstd::prelude::*;

verus! {

/// Phase of the control transfer on endpoint 0.
#[derive(Clone, Copy, Debug, PartialEq, Eq, Structural)]
pub enum ControlStateEnum {
    Idle,
    Setup,
    DataIn,
    DataOut,
    Accepted,
    NodataPhase,
}

/// The phase, and the bytes of the data stage still to come: to be sent in
/// a device-to-host stage, to be received in a host-to-device one.
#[derive(Clone, Copy, Debug, PartialEq, Eq, Structural)]
pub struct ControlState {
    pub state: ControlStateEnum,
    pub tx_len: u32,
}

/// A control-pipe call made in a phase that does not allow it. The caller
/// stalls endpoint 0; the phase machine is back at `Idle`.
#[derive(Clone, Copy, Debug, PartialEq, Eq, Structural)]
pub enum ControlError {
    /// A write of `len` bytes in `state`.
    UnexpectedWrite { state: ControlStateEnum, len: usize },
    /// A read of `count` bytes in `state`.
    UnexpectedRead { state: ControlStateEnum, count: u16 },
    /// A packet of `count` bytes, not 8, where a setup packet was due.
    MalformedSetup { count: u16 },
}

/// What to do with endpoint 0's control register after a write.
#[derive(Clone, Copy, Debug, PartialEq, Eq, Structural)]
pub struct Ep0WriteAction {
    /// Hand the packet in the FIFO to the hardware.
    pub tx_pkt_rdy: bool,
    /// Mark the packet as the last of the data stage.
    pub data_end: bool,
    /// Report the IN transfer as complete to the stack at once.
    pub in_complete: bool,
}

/// What endpoint 0's interrupt means, once its status bits are read.
#[derive(Clone, Copy, Debug, PartialEq, Eq, Structural)]
pub struct Ep0Interrupt {
    /// A setup packet is waiting to be read.
    pub setup: bool,
    /// Acknowledge a setup-end condition in the control register.
    pub service_setup_end: bool,
    /// A data-stage packet was sent.
    pub tx_complete: bool,
    /// A data-stage packet was received.
    pub rx_ready: bool,
    /// A packet that is not 8 bytes long came where a setup packet was due;
    /// it is not taken as a setup packet.
    pub malformed_setup: bool,
}

/// The length field (`wLength`) of a setup packet.
pub open spec fn setup_length(setup: Seq<u8>) -> nat {
    setup[6] as nat + setup[7] as nat * 256
}

/// A setup packet whose data stage goes from device to host.
pub open spec fn setup_is_in(setup: Seq<u8>) -> bool {
    setup[0] >= 0x80
}

/// The state after the setup packet `setup` has been read in `Setup`.
pub open spec fn after_setup(setup: Seq<u8>) -> ControlState {
    if setup_length(setup) == 0 {
        ControlState { state: ControlStateEnum::NodataPhase, tx_len: 0 }
    } else if setup_is_in(setup) {
        ControlState { state: ControlStateEnum::DataIn, tx_len: setup_length(setup) as u32 }
    } else {
        ControlState { state: ControlStateEnum::DataOut, tx_len: setup_length(setup) as u32 }
    }
}

/// The outcome of writing `len` bytes to endpoint 0 in state `s`.
pub open spec fn write_spec(s: ControlState, len: nat, max_packet_size: u16) -> (
    ControlState,
    Result<Ep0WriteAction, ControlError>,
) {
    let idle = ControlState { state: ControlStateEnum::Idle, tx_len: 0 };
    match s.state {
        ControlStateEnum::NodataPhase => if len == 0 {
            (
                ControlState { state: ControlStateEnum::Idle, ..s },
                Ok(Ep0WriteAction { tx_pkt_rdy: false, data_end: false, in_complete: true }),
            )
        } else {
            (idle, Err(ControlError::UnexpectedWrite { state: s.state, len: len as usize }))
        },
        ControlStateEnum::DataIn => {
            let rest: nat = if len > s.tx_len {
                0
            } else {
                (s.tx_len - len) as nat
            };
            if rest == 0 {
                (
                    ControlState { state: ControlStateEnum::Idle, tx_len: 0 },
                    Ok(Ep0WriteAction { tx_pkt_rdy: true, data_end: true, in_complete: false }),
                )
            } else if len < max_packet_size {
                (idle, Ok(Ep0WriteAction { tx_pkt_rdy: true, data_end: true, in_complete: false }))
            } else {
                (
                    ControlState { state: ControlStateEnum::DataIn, tx_len: rest as u32 },
                    Ok(Ep0WriteAction { tx_pkt_rdy: true, data_end: false, in_complete: false }),
                )
            }
        },
        ControlStateEnum::Idle => if len == 0 {
            (
                ControlState { state: ControlStateEnum::Accepted, ..s },
                Ok(Ep0WriteAction { tx_pkt_rdy: false, data_end: false, in_complete: false }),
            )
        } else {
            (idle, Err(ControlError::UnexpectedWrite { state: s.state, len: len as usize }))
        },
        _ => (idle, Err(ControlError::UnexpectedWrite { state: s.state, len: len as usize })),
    }
}

/// The outcome of reading a data-stage packet of `count` bytes in state `s`
/// (the setup packet itself is read through `after_setup`): `Ok(true)` when
/// the packet ends the data stage, being short or completing the announced
/// length.
pub open spec fn read_spec(s: ControlState, count: u16, max_packet_size: u16) -> (
    ControlState,
    Result<bool, ControlError>,
) {
    let idle = ControlState { state: ControlStateEnum::Idle, tx_len: 0 };
    match s.state {
        ControlStateEnum::DataOut => if count < max_packet_size || count >= s.tx_len {
            (idle, Ok(true))
        } else {
            (ControlState { state: ControlStateEnum::DataOut, tx_len: (s.tx_len - count) as u32 }, Ok(false))
        },
        _ => (idle, Err(ControlError::UnexpectedRead { state: s.state, count })),
    }
}

/// The outcome of reading `packet` from endpoint 0 in state `s`: in `Setup`
/// it must be the 8-byte setup packet (`Ok(true)` when "data end" is due at
/// once), otherwise it is a data-stage packet.
pub open spec fn read_ep0_spec(s: ControlState, packet: Seq<u8>, max_packet_size: u16) -> (
    ControlState,
    Result<bool, ControlError>,
) {
    if s.state == ControlStateEnum::Setup {
        if packet.len() == 8 {
            (after_setup(packet), Ok(setup_length(packet) == 0))
        } else {
            (
                ControlState { state: ControlStateEnum::Idle, tx_len: 0 },
                Err(ControlError::MalformedSetup { count: packet.len() as u16 }),
            )
        }
    } else {
        read_spec(s, packet.len() as u16, max_packet_size)
    }
}

/// The outcome of endpoint 0's interrupt in state `s`, given its RX-ready,
/// TX-ready and setup-end bits and its received byte count.
pub open spec fn interrupt_spec(
    s: ControlState,
    rx_pkt_rdy: bool,
    tx_pkt_rdy: bool,
    setup_end: bool,
    count: u8,
) -> (ControlState, Ep0Interrupt) {
    let none = Ep0Interrupt {
        setup: false,
        service_setup_end: false,
        tx_complete: false,
        rx_ready: false,
        malformed_setup: false,
    };
    if !rx_pkt_rdy {
        if !tx_pkt_rdy && s.state == ControlStateEnum::DataIn {
            (s, Ep0Interrupt { tx_complete: true, ..none })
        } else {
            (s, none)
        }
    } else {
        match s.state {
            ControlStateEnum::Idle => if count == 8 {
                (
                    ControlState { state: ControlStateEnum::Setup, ..s },
                    Ep0Interrupt { setup: true, service_setup_end: true, ..none },
                )
            } else {
                (s, Ep0Interrupt { malformed_setup: true, ..none })
            },
            ControlStateEnum::DataOut => (s, Ep0Interrupt { rx_ready: true, ..none }),
            ControlStateEnum::DataIn => if setup_end {
                if count == 8 {
                    (
                        ControlState { state: ControlStateEnum::Setup, tx_len: 0 },
                        Ep0Interrupt { setup: true, service_setup_end: true, ..none },
                    )
                } else {
                    (
                        ControlState { state: ControlStateEnum::Idle, tx_len: 0 },
                        Ep0Interrupt { service_setup_end: true, malformed_setup: true, ..none },
                    )
                }
            } else {
                (s, none)
            },
            _ => (s, none),
        }
    }
}

impl ControlState {
    /// `Idle`, with no data stage under way.
    pub fn new() -> (r: ControlState)
        ensures
            r == (ControlState { state: ControlStateEnum::Idle, tx_len: 0 }),
    {
        ControlState { state: ControlStateEnum::Idle, tx_len: 0 }
    }

    /// Moves to phase `state`.
    pub fn set_state(&mut self, state: ControlStateEnum)
        ensures
            *final(self) == (ControlState { state, ..*old(self) }),
    {
        self.state = state;
    }

    /// The current phase.
    pub fn get_state(&self) -> (r: ControlStateEnum)
        ensures
            r == self.state,
    {
        self.state
    }

    /// Forgets the bytes still to come in the data stage.
    pub fn reset_tx_len(&mut self)
        ensures
            *final(self) == (ControlState { tx_len: 0, ..*old(self) }),
    {
        self.tx_len = 0;
    }

    /// Sets the bytes still to come in the data stage.
    pub fn set_tx_len(&mut self, tx_len: u32)
        ensures
            *final(self) == (ControlState { tx_len, ..*old(self) }),
    {
        self.tx_len = tx_len;
    }

    /// Counts `len` bytes as sent; more than are left leaves none.
    pub fn decrease_tx_len(&mut self, len: u32)
        ensures
            final(self).state == old(self).state,
            final(self).tx_len == if len > old(self).tx_len {
                0
            } else {
                old(self).tx_len - len
            },
    {
        if len > self.tx_len {
            self.tx_len = 0;
        } else {
            self.tx_len = self.tx_len - len;
        }
    }

    /// The bytes still to come in the data stage.
    pub fn get_tx_len(&self) -> (r: u32)
        ensures
            r == self.tx_len,
    {
        self.tx_len
    }

    /// A bus reset: back to `Idle`, nothing to send.
    pub fn reset(&mut self)
        ensures
            *final(self) == (ControlState { state: ControlStateEnum::Idle, tx_len: 0 }),
    {
        self.state = ControlStateEnum::Idle;
        self.tx_len = 0;
    }

    /// Endpoint 0 was stalled or unstalled in either direction. A stall ends
    /// the transfer: back to `Idle`, nothing to send.
    pub fn on_stall(&mut self, stalled: bool)
        ensures
            stalled ==> *final(self) == (ControlState {
                state: ControlStateEnum::Idle,
                tx_len: 0,
            }),
            !stalled ==> *final(self) == *old(self),
    {
        if stalled {
            self.reset();
        }
    }

    /// Reads the 8-byte setup packet in phase `Setup`. Returns whether the
    /// "data end" bit must be set at once, which is so when the packet asks
    /// for no data stage.
    pub fn read_setup(&mut self, setup: &[u8; 8]) -> (r: Result<bool, ControlError>)
        ensures
            old(self).state == ControlStateEnum::Setup ==> *final(self) == after_setup(setup@)
                && r == Ok::<bool, ControlError>(setup_length(setup@) == 0),
            old(self).state != ControlStateEnum::Setup ==> *final(self) == (ControlState {
                state: ControlStateEnum::Idle,
                tx_len: 0,
            }) && r == Err::<bool, ControlError>(
                ControlError::UnexpectedRead { state: old(self).state, count: 8 },
            ),
    {
        if self.state != ControlStateEnum::Setup {
            let state = self.state;
            self.reset();
            return Err(ControlError::UnexpectedRead { state, count: 8 });
        }
        let w_length: u16 = setup[6] as u16 | ((setup[7] as u16) << 8u16);
        let lo = setup[6];
        let hi = setup[7];
        assert(lo as u16 | ((hi as u16) << 8u16) == lo as u16 + hi as u16 * 256) by (bit_vector);
        if w_length == 0 {
            self.state = ControlStateEnum::NodataPhase;
            self.tx_len = 0;
            Ok(true)
        } else if setup[0] & 0x80 == 0 {
            let b = setup[0];
            assert(b & 0x80 == 0 <==> b < 0x80) by (bit_vector);
            self.state = ControlStateEnum::DataOut;
            self.tx_len = w_length as u32;
            Ok(false)
        } else {
            let b = setup[0];
            assert(b & 0x80 == 0 <==> b < 0x80) by (bit_vector);
            self.state = ControlStateEnum::DataIn;
            self.tx_len = w_length as u32;
            Ok(false)
        }
    }

    /// Accounts for a write of `len` bytes to endpoint 0, whose IN packets
    /// hold up to `max_packet_size` bytes, and says how to hand it over.
    pub fn write(&mut self, len: usize, max_packet_size: u16) -> (r: Result<Ep0WriteAction, ControlError>)
        ensures
            (*final(self), r) == write_spec(*old(self), len as nat, max_packet_size),
    {
        match self.state {
            ControlStateEnum::NodataPhase => {
                if len != 0 {
                    self.reset();
                    return Err(
                        ControlError::UnexpectedWrite { state: ControlStateEnum::NodataPhase, len },
                    );
                }
                self.state = ControlStateEnum::Idle;
                Ok(Ep0WriteAction { tx_pkt_rdy: false, data_end: false, in_complete: true })
            },
            ControlStateEnum::DataIn => {
                if len as u64 > self.tx_len as u64 {
                    self.tx_len = 0;
                } else {
                    self.tx_len = self.tx_len - len as u32;
                }
                if self.tx_len == 0 {
                    self.state = ControlStateEnum::Idle;
                    Ok(Ep0WriteAction { tx_pkt_rdy: true, data_end: true, in_complete: false })
                } else if len < max_packet_size as usize {
                    self.reset();
                    Ok(Ep0WriteAction { tx_pkt_rdy: true, data_end: true, in_complete: false })
                } else {
                    Ok(Ep0WriteAction { tx_pkt_rdy: true, data_end: false, in_complete: false })
                }
            },
            ControlStateEnum::Idle => {
                if len != 0 {
                    self.reset();
                    return Err(ControlError::UnexpectedWrite { state: ControlStateEnum::Idle, len });
                }
                self.state = ControlStateEnum::Accepted;
                Ok(Ep0WriteAction { tx_pkt_rdy: false, data_end: false, in_complete: false })
            },
            _ => {
                let state = self.state;
                self.reset();
                Err(ControlError::UnexpectedWrite { state, len })
            },
        }
    }

    /// Accounts for a data-stage packet of `count` bytes read from endpoint
    /// 0, whose OUT packets hold up to `max_packet_size` bytes. Returns
    /// whether it ends the data stage, being short or completing the length
    /// that the setup packet announced; then "data end" must be set.
    pub fn read(&mut self, count: u16, max_packet_size: u16) -> (r: Result<bool, ControlError>)
        ensures
            (*final(self), r) == read_spec(*old(self), count, max_packet_size),
    {
        match self.state {
            ControlStateEnum::DataOut => {
                if count < max_packet_size || count as u32 >= self.tx_len {
                    self.reset();
                    Ok(true)
                } else {
                    self.tx_len = self.tx_len - count as u32;
                    Ok(false)
                }
            },
            _ => {
                let state = self.state;
                self.reset();
                Err(ControlError::UnexpectedRead { state, count })
            },
        }
    }

    /// Accounts for `packet`, read from endpoint 0 whose OUT packets hold up
    /// to `max_packet_size` bytes: the setup packet in phase `Setup`, a
    /// data-stage packet otherwise. Returns whether "data end" must be set.
    pub fn read_ep0(&mut self, packet: &[u8], max_packet_size: u16) -> (r: Result<bool, ControlError>)
        requires
            packet@.len() <= 0xffff,
        ensures
            (*final(self), r) == read_ep0_spec(*old(self), packet@, max_packet_size),
    {
        let count = packet.len() as u16;
        if self.state == ControlStateEnum::Setup {
            if packet.len() != 8 {
                self.reset();
                return Err(ControlError::MalformedSetup { count });
            }
            let setup: [u8; 8] = [
                packet[0],
                packet[1],
                packet[2],
                packet[3],
                packet[4],
                packet[5],
                packet[6],
                packet[7],
            ];
            assert(setup@ =~= packet@);
            self.read_setup(&setup)
        } else {
            self.read(count, max_packet_size)
        }
    }

    /// Takes `packet` as the setup packet that starts a new control transfer,
    /// whatever the phase was; a packet that is not 8 bytes long is refused
    /// and changes nothing. Returns whether "data end" must be set at once,
    /// which is so when the packet asks for no data stage.
    pub fn receive_setup(&mut self, packet: &[u8]) -> (r: Result<bool, ControlError>)
        requires
            packet@.len() <= 0xffff,
        ensures
            packet@.len() == 8 ==> *final(self) == after_setup(packet@) && r == Ok::<
                bool,
                ControlError,
            >(setup_length(packet@) == 0),
            packet@.len() != 8 ==> *final(self) == *old(self) && r == Err::<bool, ControlError>(
                ControlError::MalformedSetup { count: packet@.len() as u16 },
            ),
    {
        if packet.len() != 8 {
            return Err(ControlError::MalformedSetup { count: packet.len() as u16 });
        }
        self.state = ControlStateEnum::Setup;
        let r = self.read_ep0(packet, 0);
        r
    }

    /// Interprets endpoint 0's interrupt from its RX-ready, TX-ready and
    /// setup-end bits and its received byte count.
    pub fn on_ep0_interrupt(&mut self, rx_pkt_rdy: bool, tx_pkt_rdy: bool, setup_end: bool, count: u8) -> (r:
        Ep0Interrupt)
        ensures
            (*final(self), r) == interrupt_spec(*old(self), rx_pkt_rdy, tx_pkt_rdy, setup_end, count),
    {
        let none = Ep0Interrupt {
            setup: false,
            service_setup_end: false,
            tx_complete: false,
            rx_ready: false,
            malformed_setup: false,
        };
        if !rx_pkt_rdy {
            if !tx_pkt_rdy && self.state == ControlStateEnum::DataIn {
                return Ep0Interrupt { tx_complete: true, ..none };
            }
            return none;
        }
        match self.state {
            ControlStateEnum::Idle => {
                if count == 8 {
                    self.state = ControlStateEnum::Setup;
                    Ep0Interrupt { setup: true, service_setup_end: true, ..none }
                } else {
                    Ep0Interrupt { malformed_setup: true, ..none }
                }
            },
            ControlStateEnum::DataOut => Ep0Interrupt { rx_ready: true, ..none },
            ControlStateEnum::DataIn => {
                if setup_end {
                    self.reset();
                    if count == 8 {
                        self.state = ControlStateEnum::Setup;
                        Ep0Interrupt { setup: true, service_setup_end: true, ..none }
                    } else {
                        Ep0Interrupt { service_setup_end: true, malformed_setup: true, ..none }
                    }
                } else {
                    none
                }
            },
            _ => none,
        }
    }
}

/// What the next packet carries when it is as full as `max_packet_size`
/// allows: all that is left of the data stage, or one packet's worth.
pub open spec fn next_chunk(s: ControlState, max_packet_size: u16) -> nat {
    if s.tx_len < max_packet_size {
        s.tx_len as nat
    } else {
        max_packet_size as nat
    }
}

/// The state after `n` writes in each of which the device sends as much of
/// what is left as one packet of `max_packet_size` bytes holds.
pub open spec fn after_full_writes(s: ControlState, max_packet_size: u16, n: nat) -> ControlState
    decreases n,
{
    if n == 0 {
        s
    } else {
        let p = after_full_writes(s, max_packet_size, (n - 1) as nat);
        write_spec(p, next_chunk(p, max_packet_size), max_packet_size).0
    }
}

/// The result of write number `n` (from 0) of that sequence.
pub open spec fn write_result_at(s: ControlState, max_packet_size: u16, n: nat) -> Result<
    Ep0WriteAction,
    ControlError,
> {
    let p = after_full_writes(s, max_packet_size, n);
    write_spec(p, next_chunk(p, max_packet_size), max_packet_size).1
}

/// The state after `n` host-to-device packets, each as full as
/// `max_packet_size` allows.
pub open spec fn after_full_reads(s: ControlState, max_packet_size: u16, n: nat) -> ControlState
    decreases n,
{
    if n == 0 {
        s
    } else {
        let p = after_full_reads(s, max_packet_size, (n - 1) as nat);
        read_spec(p, next_chunk(p, max_packet_size) as u16, max_packet_size).0
    }
}

/// The result of read number `n` (from 0) of that sequence.
pub open spec fn read_result_at(s: ControlState, max_packet_size: u16, n: nat) -> Result<
    bool,
    ControlError,
> {
    let p = after_full_reads(s, max_packet_size, n);
    read_spec(p, next_chunk(p, max_packet_size) as u16, max_packet_size).1
}

proof fn lemma_in_progress(setup: Seq<u8>, max_packet_size: u16, n: nat)
    requires
        setup.len() == 8,
        setup_is_in(setup),
        max_packet_size > 0,
        n * max_packet_size < setup_length(setup),
    ensures
        after_full_writes(after_setup(setup), max_packet_size, n) == (ControlState {
            state: ControlStateEnum::DataIn,
            tx_len: (setup_length(setup) - n * max_packet_size) as u32,
        }),
    decreases n,
{
    let m = max_packet_size as nat;
    let l = setup_length(setup);
    assert(l <= 65535);
    if n > 0 {
        assert((n - 1) * m == n * m - m) by (nonlinear_arith);
        lemma_in_progress(setup, max_packet_size, (n - 1) as nat);
        let p = after_full_writes(after_setup(setup), max_packet_size, (n - 1) as nat);
        assert(p.tx_len == l - (n - 1) * m);
        assert(p.tx_len >= m);
    } else {
        assert(n * m == 0) by (nonlinear_arith)
            requires
                n == 0,
        ;
    }
}

/// A device-to-host control transfer whose setup packet asks for `L > 0`
/// bytes, fed full packets: every write of the data stage hands its packet
/// over, and "data end" comes with exactly one of them, the one that
/// completes the `L` bytes; the phase machine stays in the data stage until
/// then and is back at `Idle` after it, that is after exactly
/// ceil(L / max packet size) packets.
pub proof fn lemma_in_transfer_closes(setup: Seq<u8>, max_packet_size: u16, n: nat)
    requires
        setup.len() == 8,
        setup_is_in(setup),
        setup_length(setup) > 0,
        max_packet_size > 0,
    ensures
        after_setup(setup).state == ControlStateEnum::DataIn,
        n * max_packet_size < setup_length(setup) ==> after_full_writes(
            after_setup(setup),
            max_packet_size,
            n,
        ).state == ControlStateEnum::DataIn && write_result_at(after_setup(setup), max_packet_size, n)
            == Ok::<Ep0WriteAction, ControlError>(
            Ep0WriteAction {
                tx_pkt_rdy: true,
                data_end: (n + 1) * max_packet_size >= setup_length(setup),
                in_complete: false,
            },
        ),
        n > 0 && (n - 1) * max_packet_size < setup_length(setup) <= n * max_packet_size
            ==> after_full_writes(after_setup(setup), max_packet_size, n).state
            == ControlStateEnum::Idle,
{
    let m = max_packet_size as nat;
    assert((n + 1) * m == n * m + m) by (nonlinear_arith);
    if n * max_packet_size < setup_length(setup) {
        lemma_in_progress(setup, max_packet_size, n);
    }
    if n > 0 && (n - 1) * max_packet_size < setup_length(setup) <= n * max_packet_size {
        lemma_in_progress(setup, max_packet_size, (n - 1) as nat);
        assert((n - 1) * m == n * m - m) by (nonlinear_arith);
    }
}

proof fn lemma_out_progress(setup: Seq<u8>, max_packet_size: u16, n: nat)
    requires
        setup.len() == 8,
        !setup_is_in(setup),
        setup_length(setup) > 0,
        max_packet_size > 0,
        n * max_packet_size < setup_length(setup),
    ensures
        after_full_reads(after_setup(setup), max_packet_size, n) == (ControlState {
            state: ControlStateEnum::DataOut,
            tx_len: (setup_length(setup) - n * max_packet_size) as u32,
        }),
    decreases n,
{
    let m = max_packet_size as nat;
    let l = setup_length(setup);
    assert(l <= 65535);
    if n > 0 {
        assert((n - 1) * m == n * m - m) by (nonlinear_arith);
        lemma_out_progress(setup, max_packet_size, (n - 1) as nat);
        let p = after_full_reads(after_setup(setup), max_packet_size, (n - 1) as nat);
        assert(p.tx_len == l - (n - 1) * m);
        assert(p.tx_len > m);
    } else {
        assert(n * m == 0) by (nonlinear_arith)
            requires
                n == 0,
        ;
    }
}

/// A host-to-device control transfer whose setup packet announces `L > 0`
/// bytes, fed full packets: a packet ends the data stage exactly when it
/// completes the `L` bytes (by being short, or by reaching the length when
/// `L` is a multiple of the packet size); the phase machine is back at
/// `Idle` after exactly ceil(L / max packet size) packets.
pub proof fn lemma_out_transfer_closes(setup: Seq<u8>, max_packet_size: u16, n: nat)
    requires
        setup.len() == 8,
        !setup_is_in(setup),
        setup_length(setup) > 0,
        max_packet_size > 0,
    ensures
        after_setup(setup).state == ControlStateEnum::DataOut,
        n * max_packet_size < setup_length(setup) ==> after_full_reads(
            after_setup(setup),
            max_packet_size,
            n,
        ).state == ControlStateEnum::DataOut && read_result_at(after_setup(setup), max_packet_size, n)
            == Ok::<bool, ControlError>((n + 1) * max_packet_size >= setup_length(setup)),
        n > 0 && (n - 1) * max_packet_size < setup_length(setup) <= n * max_packet_size
            ==> after_full_reads(after_setup(setup), max_packet_size, n).state
            == ControlStateEnum::Idle,
{
    let m = max_packet_size as nat;
    assert((n + 1) * m == n * m + m) by (nonlinear_arith);
    if n * max_packet_size < setup_length(setup) {
        lemma_out_progress(setup, max_packet_size, n);
    }
    if n > 0 && (n - 1) * max_packet_size < setup_length(setup) <= n * max_packet_size {
        lemma_out_progress(setup, max_packet_size, (n - 1) as nat);
        assert((n - 1) * m == n * m - m) by (nonlinear_arith);
    }
}

/// The no-data phase is entered exactly when the setup packet's length field
/// is zero, "data end" is due at once exactly then, and a zero-length write
/// then ends the transfer.
pub proof fn lemma_nodata_phase(setup: Seq<u8>, max_packet_size: u16)
    requires
        setup.len() == 8,
    ensures
        (after_setup(setup).state == ControlStateEnum::NodataPhase) <==> setup_length(setup) == 0,
        read_ep0_spec(
            ControlState { state: ControlStateEnum::Setup, tx_len: 0 },
            setup,
            max_packet_size,
        ).1 == Ok::<bool, ControlError>(setup_length(setup) == 0),
        setup_length(setup) == 0 ==> write_spec(after_setup(setup), 0, max_packet_size).0.state
            == ControlStateEnum::Idle,
{
}

} // verus!
