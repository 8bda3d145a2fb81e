//! Length bookkeeping of single-packet reads and writes on an endpoint.
use vstd::prelude::*;

verus! {

/// Why a packet transfer failed.
#[derive(Clone, Copy, Debug, PartialEq, Eq, Structural)]
pub enum EndpointError {
    /// The packet does not fit: the caller's buffer is smaller than the
    /// received packet, or the data is larger than a packet.
    BufferOverflow,
    /// The endpoint is disabled.
    Disabled,
}

/// How to take a received packet out of the FIFO.
#[derive(Clone, Copy, Debug, PartialEq, Eq)]
pub struct ReadPlan {
    /// Bytes to copy into the caller's buffer.
    pub copy: usize,
    /// Bytes to read from the FIFO and drop, so that the FIFO is left empty.
    pub drain: usize,
    /// What the read returns: the packet's length, or an overflow.
    pub result: Result<usize, EndpointError>,
}

/// A packet of `count` bytes arrived and the caller's buffer holds
/// `buf_len`: copy what fits, drain the rest, and fail if anything was
/// dropped.
pub fn plan_read(count: u16, buf_len: usize) -> (r: ReadPlan)
    ensures
        count as int <= buf_len ==> r == (ReadPlan {
            copy: count as usize,
            drain: 0,
            result: Ok(count as usize),
        }),
        count as int > buf_len ==> r == (ReadPlan {
            copy: buf_len,
            drain: (count - buf_len) as usize,
            result: Err(EndpointError::BufferOverflow),
        }),
{
    if count as usize <= buf_len {
        ReadPlan { copy: count as usize, drain: 0, result: Ok(count as usize) }
    } else {
        ReadPlan {
            copy: buf_len,
            drain: count as usize - buf_len,
            result: Err(EndpointError::BufferOverflow),
        }
    }
}

/// A data-stage packet of `count` bytes arrived on the control pipe, whose
/// OUT packets hold up to `max_packet_size` bytes: as `plan_read`, and a
/// packet longer than a packet may be also fails.
pub fn plan_control_read(count: u16, buf_len: usize, max_packet_size: u16) -> (r: ReadPlan)
    ensures
        count as int <= buf_len && count <= max_packet_size ==> r == (ReadPlan {
            copy: count as usize,
            drain: 0,
            result: Ok(count as usize),
        }),
        count as int <= buf_len && count > max_packet_size ==> r == (ReadPlan {
            copy: count as usize,
            drain: 0,
            result: Err(EndpointError::BufferOverflow),
        }),
        count as int > buf_len ==> r == (ReadPlan {
            copy: buf_len,
            drain: (count - buf_len) as usize,
            result: Err(EndpointError::BufferOverflow),
        }),
{
    let plan = plan_read(count, buf_len);
    if count > max_packet_size {
        ReadPlan { result: Err(EndpointError::BufferOverflow), ..plan }
    } else {
        plan
    }
}

/// Whether `len` bytes can go out as one packet of at most
/// `max_packet_size` bytes.
pub fn check_write(len: usize, max_packet_size: u16) -> (r: Result<(), EndpointError>)
    ensures
        len <= max_packet_size ==> r == Ok::<(), EndpointError>(()),
        len > max_packet_size ==> r == Err::<(), EndpointError>(EndpointError::BufferOverflow),
{
    if len > max_packet_size as usize {
        Err(EndpointError::BufferOverflow)
    } else {
        Ok(())
    }
}

} // verus!
