//! What the chip offers at each endpoint index.
use vstd::prelude::*;

verus! {

/// The directions that the hardware endpoint at an index can serve.
#[derive(Clone, Copy, Debug, PartialEq, Eq, Structural)]
pub enum EpDirection {
    TX,
    RX,
    RXTX,
}

/// The hardware limits of one endpoint index.
#[derive(Clone, Copy, Debug, PartialEq, Eq, Structural)]
pub struct EpInfo {
    pub ep_direction: EpDirection,
    /// Largest packet that the endpoint's FIFO holds, in bytes.
    pub max_packet_size: u16,
}

} // verus!
