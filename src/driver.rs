//! The enumeration-time driver: the chip's endpoint list, the slot table and
//! the FIFO pool, and the endpoint handles that allocation hands out.
use vstd::prelude::*;

use crate::alloc_endpoint::{
    alloc_endpoint, alloc_spec, lemma_control_index_available, new_endpoint_table, pool_wf,
    table_wf, Direction, EndpointAllocError, EndpointData, EndpointType, FifoPool,
};
use crate::info::EpInfo;

verus! {

/// An endpoint address as the host sees it: the index in bits 0 to 6, bit 7
/// set for IN.
#[derive(Clone, Copy, Debug, PartialEq, Eq, Structural)]
pub struct EndpointAddress(pub u8);

/// The address byte of endpoint `index` in direction `dir`.
pub open spec fn address_byte(index: u8, dir: Direction) -> u8 {
    index | if dir == Direction::In {
        0x80u8
    } else {
        0x00u8
    }
}

impl EndpointAddress {
    /// The address of endpoint `index` in direction `dir`.
    pub fn from_parts(index: u8, dir: Direction) -> (r: EndpointAddress)
        ensures
            r.0 == address_byte(index, dir),
    {
        let d: u8 = match dir {
            Direction::Out => 0x00,
            Direction::In => 0x80,
        };
        EndpointAddress(index | d)
    }

    /// The direction part of the address.
    pub fn direction(&self) -> (r: Direction)
        ensures
            r == if self.0 & 0x80 != 0 {
                Direction::In
            } else {
                Direction::Out
            },
    {
        if self.0 & 0x80 != 0 {
            Direction::In
        } else {
            Direction::Out
        }
    }

    /// The index part of the address.
    pub fn index(&self) -> (r: u8)
        ensures
            r == self.0 & 0x7f,
    {
        self.0 & 0x7f
    }
}

/// An address built from an index below 128 and a direction gives both back.
pub proof fn lemma_address_round_trip(index: u8, dir: Direction)
    requires
        index < 128,
    ensures
        address_byte(index, dir) & 0x7f == index,
        (address_byte(index, dir) & 0x80 != 0) == (dir == Direction::In),
{
    assert(index < 128 ==> (index | 0x80u8) & 0x7f == index && (index | 0x80u8) & 0x80 != 0)
        by (bit_vector);
    assert(index < 128 ==> (index | 0x00u8) & 0x7f == index && (index | 0x00u8) & 0x80 == 0)
        by (bit_vector);
}

/// What the stack learns of an allocated endpoint.
#[derive(Clone, Copy, Debug, PartialEq, Eq, Structural)]
pub struct EndpointInfo {
    pub addr: EndpointAddress,
    pub ep_type: EndpointType,
    pub max_packet_size: u16,
    pub interval_ms: u8,
}

/// The two halves of the control pipe.
#[derive(Clone, Copy, Debug, PartialEq, Eq, Structural)]
pub struct ControlPipeInfo {
    pub max_packet_size: u16,
    pub ep_out: EndpointInfo,
    pub ep_in: EndpointInfo,
}

/// The allocation state of one controller during enumeration.
pub struct MusbDriver {
    /// The chip's endpoints, index by index.
    pub infos: Vec<EpInfo>,
    /// One slot per endpoint index.
    pub alloc: Vec<EndpointData>,
    pub pool: FifoPool,
}

impl MusbDriver {
    /// The slot table matches the chip and the FIFO cursor is in range.
    pub open spec fn wf(&self) -> bool {
        table_wf(self.alloc@, self.infos@) && pool_wf(self.pool)
    }

    /// A driver for a chip with endpoints `infos`, nothing allocated.
    pub fn new(infos: Vec<EpInfo>, pool: FifoPool) -> (r: MusbDriver)
        requires
            1 <= infos@.len() <= 16,
            pool_wf(pool),
        ensures
            r.wf(),
            r.infos@ == infos@,
            r.pool == pool,
            forall|i: int| 0 <= i < r.alloc@.len() ==> !(#[trigger] r.alloc@[i]).used_tx && !r.alloc@[i].used_rx,
    {
        let n = infos.len();
        MusbDriver { infos, alloc: new_endpoint_table(n), pool }
    }

    /// Allocates an endpoint of `ep_type` in `dir` (at `ep_index` when given)
    /// and describes it for the stack.
    pub fn alloc_endpoint(
        &mut self,
        ep_type: EndpointType,
        max_packet_size: u16,
        interval_ms: u8,
        ep_index: Option<u8>,
        dir: Direction,
    ) -> (r: Result<EndpointInfo, EndpointAllocError>)
        requires
            old(self).wf(),
        ensures
            final(self).wf(),
            final(self).infos@ == old(self).infos@,
            ({
                let out = alloc_spec(
                    old(self).alloc@,
                    old(self).infos@,
                    old(self).pool,
                    ep_type,
                    ep_index,
                    dir,
                    max_packet_size,
                );
                &&& final(self).alloc@ == out.1
                &&& final(self).pool == out.2
                &&& match out.0 {
                    Ok(i) => r == Ok::<EndpointInfo, EndpointAllocError>(
                        EndpointInfo {
                            addr: EndpointAddress(address_byte(i, dir)),
                            ep_type,
                            max_packet_size,
                            interval_ms,
                        },
                    ),
                    Err(e) => r == Err::<EndpointInfo, EndpointAllocError>(e),
                }
            }),
    {
        match alloc_endpoint(
            &mut self.alloc,
            self.infos.as_slice(),
            &mut self.pool,
            ep_type,
            ep_index,
            dir,
            max_packet_size,
        ) {
            Ok(i) => Ok(
                EndpointInfo {
                    addr: EndpointAddress::from_parts(i, dir),
                    ep_type,
                    max_packet_size,
                    interval_ms,
                },
            ),
            Err(e) => Err(e),
        }
    }

    /// Takes endpoint 0 in both directions for the control pipe, which
    /// always succeeds.
    pub fn start(&mut self, control_max_packet_size: u16) -> (r: ControlPipeInfo)
        requires
            old(self).wf(),
        ensures
            final(self).wf(),
            r.max_packet_size == control_max_packet_size,
            r.ep_out == (EndpointInfo {
                addr: EndpointAddress(0x00),
                ep_type: EndpointType::Control,
                max_packet_size: control_max_packet_size,
                interval_ms: 0,
            }),
            r.ep_in == (EndpointInfo {
                addr: EndpointAddress(0x80),
                ep_type: EndpointType::Control,
                max_packet_size: control_max_packet_size,
                interval_ms: 0,
            }),
            final(self).alloc@[0].used_tx && final(self).alloc@[0].used_rx,
    {
        proof {
            lemma_control_index_available(
                self.alloc@,
                self.infos@,
                self.pool,
                EndpointType::Control,
                Direction::Out,
                control_max_packet_size,
            );
        }
        let ep_out = self.alloc_endpoint(
            EndpointType::Control,
            control_max_packet_size,
            0,
            Some(0),
            Direction::Out,
        );
        proof {
            lemma_control_index_available(
                self.alloc@,
                self.infos@,
                self.pool,
                EndpointType::Control,
                Direction::In,
                control_max_packet_size,
            );
            assert(0u8 | 0x00u8 == 0u8 && 0u8 | 0x80u8 == 0x80u8) by (bit_vector);
        }
        let ep_in = self.alloc_endpoint(
            EndpointType::Control,
            control_max_packet_size,
            0,
            Some(0),
            Direction::In,
        );
        ControlPipeInfo {
            max_packet_size: control_max_packet_size,
            ep_out: ep_out.unwrap(),
            ep_in: ep_in.unwrap(),
        }
    }
}

} // verus!
