//! Endpoint allocation: reserving a hardware endpoint index and, where the
//! chip sizes its FIFOs at run time, a partition of the shared FIFO RAM.
use vstd::prelude::*;

use crate::info::{EpDirection, EpInfo};

verus! {

/// Transfer type of an endpoint.
#[derive(Clone, Copy, Debug, PartialEq, Eq, Structural)]
pub enum EndpointType {
    Control,
    Isochronous,
    Bulk,
    Interrupt,
}

/// Direction of an endpoint, seen from the host: `In` is device to host
/// (the controller's TX side), `Out` is host to device (its RX side).
#[derive(Clone, Copy, Debug, PartialEq, Eq, Structural)]
pub enum Direction {
    Out,
    In,
}

/// What has been negotiated for one endpoint index.
#[derive(Clone, Copy, Debug, PartialEq, Eq, Structural)]
pub struct EndpointConfig {
    pub ep_type: EndpointType,
    pub tx_max_packet_size: u16,
    pub rx_max_packet_size: u16,
    /// log2 of the TX FIFO partition in bytes (run-time FIFO sizing only).
    pub tx_fifo_size_bits: u8,
    /// log2 of the RX FIFO partition in bytes (run-time FIFO sizing only).
    pub rx_fifo_size_bits: u8,
    /// Start of the TX FIFO partition, in 8-byte units (run-time FIFO sizing only).
    pub tx_fifo_addr_8bytes: u16,
    /// Start of the RX FIFO partition, in 8-byte units (run-time FIFO sizing only).
    pub rx_fifo_addr_8bytes: u16,
}

/// One endpoint slot: its configuration and which directions are taken.
#[derive(Clone, Copy, Debug, PartialEq, Eq, Structural)]
pub struct EndpointData {
    pub ep_conf: EndpointConfig,
    pub used_tx: bool,
    pub used_rx: bool,
}

/// Why an endpoint could not be allocated.
#[derive(Clone, Copy, Debug, PartialEq, Eq, Structural)]
pub enum EndpointAllocError {
    /// No free index, or the requested index does not exist.
    EndpointOverflow,
    /// The requested index cannot serve the request.
    InvalidEndpoint,
    /// The endpoint at the index cannot serve the requested direction.
    EpDirNotSupported,
    /// The index is already taken for this use.
    EpUsed,
    /// The packet size is larger than the endpoint's FIFO.
    MaxPacketSizeBiggerThanEpFifoSize,
    /// The shared FIFO RAM has no room left for the partition.
    BufferOverflow,
}

/// How the chip's endpoint FIFOs are sized.
#[derive(Clone, Copy, Debug, PartialEq, Eq, Structural)]
pub enum FifoPool {
    /// Each endpoint has a FIFO of a size fixed in silicon.
    Fixed,
    /// FIFOs are carved from a shared RAM of `total_size` bytes; the next
    /// partition starts at `next_addr_8bytes` (8-byte units).
    Dynamic { total_size: u16, next_addr_8bytes: u16 },
}

/// The cursor of the shared FIFO RAM never passes its end.
pub open spec fn pool_wf(p: FifoPool) -> bool {
    match p {
        FifoPool::Fixed => true,
        FifoPool::Dynamic { total_size, next_addr_8bytes } => next_addr_8bytes as int * 8
            <= total_size as int,
    }
}

/// A slot table matches the chip's endpoint list, whose indices fit the
/// 4-bit index register.
pub open spec fn table_wf(alloc: Seq<EndpointData>, infos: Seq<EpInfo>) -> bool {
    &&& alloc.len() == infos.len()
    &&& 1 <= infos.len() <= 16
}

/// Whether the slot is taken in direction `dir`.
pub open spec fn used_in(ep: EndpointData, dir: Direction) -> bool {
    match dir {
        Direction::Out => ep.used_rx,
        Direction::In => ep.used_tx,
    }
}

/// Whether hardware that serves `cap` can serve `dir`.
pub open spec fn direction_supported(cap: EpDirection, dir: Direction) -> bool {
    match cap {
        EpDirection::RXTX => true,
        EpDirection::RX => dir == Direction::Out,
        EpDirection::TX => dir == Direction::In,
    }
}

/// The checks that a candidate slot must pass, in order.
pub open spec fn check_spec(
    ep: EndpointData,
    info: EpInfo,
    ep_type: EndpointType,
    dir: Direction,
    max_packet_size: u16,
) -> Result<(), EndpointAllocError> {
    let used = ep.used_tx || ep.used_rx;
    if max_packet_size > info.max_packet_size {
        Err(EndpointAllocError::MaxPacketSizeBiggerThanEpFifoSize)
    } else if !direction_supported(info.ep_direction, dir) {
        Err(EndpointAllocError::EpDirNotSupported)
    } else if ep_type == EndpointType::Bulk && used {
        Err(EndpointAllocError::EpUsed)
    } else if !used || (ep.ep_conf.ep_type == ep_type && !used_in(ep, dir)) {
        Ok(())
    } else {
        Err(EndpointAllocError::EpUsed)
    }
}

/// The first index from `i` on whose slot passes the checks.
pub open spec fn first_free(
    alloc: Seq<EndpointData>,
    infos: Seq<EpInfo>,
    ep_type: EndpointType,
    dir: Direction,
    max_packet_size: u16,
    i: int,
) -> Option<int>
    decreases alloc.len() - i,
{
    if i < 0 || i >= alloc.len() {
        None
    } else if check_spec(alloc[i], infos[i], ep_type, dir, max_packet_size) is Ok {
        Some(i)
    } else {
        first_free(alloc, infos, ep_type, dir, max_packet_size, i + 1)
    }
}

/// The index that a request lands on, or why there is none.
pub open spec fn select_slot(
    alloc: Seq<EndpointData>,
    infos: Seq<EpInfo>,
    ep_type: EndpointType,
    ep_index: Option<u8>,
    dir: Direction,
    max_packet_size: u16,
) -> Result<int, EndpointAllocError> {
    match ep_index {
        Some(i) => if i as int >= alloc.len() {
            Err(EndpointAllocError::EndpointOverflow)
        } else if i == 0 {
            Ok(0)
        } else {
            match check_spec(alloc[i as int], infos[i as int], ep_type, dir, max_packet_size) {
                Ok(_) => Ok(i as int),
                Err(e) => Err(e),
            }
        },
        None => match first_free(alloc, infos, ep_type, dir, max_packet_size, 1) {
            Some(i) => Ok(i),
            None => Err(EndpointAllocError::EndpointOverflow),
        },
    }
}

/// 2 to the power `k`.
pub open spec fn two_pow(k: nat) -> nat
    decreases k,
{
    if k == 0 {
        1
    } else {
        2 * two_pow((k - 1) as nat)
    }
}

/// The least `j >= k` (at most 16) with `2^j >= n`.
pub open spec fn log2_ceil_from(k: nat, n: nat) -> nat
    decreases 16 - k,
{
    if k >= 16 || two_pow(k) >= n {
        k
    } else {
        log2_ceil_from(k + 1, n)
    }
}

/// log2 of the FIFO partition for packets of `max_packet_size` bytes: the
/// next power of two, at least 8 bytes.
pub open spec fn fifo_bits(max_packet_size: u16) -> nat {
    log2_ceil_from(3, max_packet_size as nat)
}

/// The slot after it is taken in direction `dir`.
pub open spec fn claim(
    ep: EndpointData,
    ep_type: EndpointType,
    dir: Direction,
    max_packet_size: u16,
    sized: Option<(u8, u16)>,
) -> EndpointData {
    let c = ep.ep_conf;
    let conf = match dir {
        Direction::Out => EndpointConfig {
            ep_type,
            rx_max_packet_size: max_packet_size,
            rx_fifo_size_bits: match sized {
                Some(s) => s.0,
                None => c.rx_fifo_size_bits,
            },
            rx_fifo_addr_8bytes: match sized {
                Some(s) => s.1,
                None => c.rx_fifo_addr_8bytes,
            },
            ..c
        },
        Direction::In => EndpointConfig {
            ep_type,
            tx_max_packet_size: max_packet_size,
            tx_fifo_size_bits: match sized {
                Some(s) => s.0,
                None => c.tx_fifo_size_bits,
            },
            tx_fifo_addr_8bytes: match sized {
                Some(s) => s.1,
                None => c.tx_fifo_addr_8bytes,
            },
            ..c
        },
    };
    EndpointData {
        ep_conf: conf,
        used_tx: ep.used_tx || dir == Direction::In,
        used_rx: ep.used_rx || dir == Direction::Out,
    }
}

/// The outcome of one allocation request: the result, the new slot table
/// and the new FIFO pool. A failed request changes nothing.
pub open spec fn alloc_spec(
    alloc: Seq<EndpointData>,
    infos: Seq<EpInfo>,
    pool: FifoPool,
    ep_type: EndpointType,
    ep_index: Option<u8>,
    dir: Direction,
    max_packet_size: u16,
) -> (Result<u8, EndpointAllocError>, Seq<EndpointData>, FifoPool) {
    match select_slot(alloc, infos, ep_type, ep_index, dir, max_packet_size) {
        Err(e) => (Err(e), alloc, pool),
        Ok(i) => {
            let bits = fifo_bits(max_packet_size);
            match pool {
                FifoPool::Fixed => (
                    Ok(i as u8),
                    alloc.update(i, claim(alloc[i], ep_type, dir, max_packet_size, None)),
                    pool,
                ),
                FifoPool::Dynamic { total_size, next_addr_8bytes } => if i == 0 {
                    (
                        Ok(0),
                        alloc.update(
                            0,
                            claim(alloc[0], ep_type, dir, max_packet_size, Some((bits as u8, 0u16))),
                        ),
                        pool,
                    )
                } else {
                    let next = next_addr_8bytes + two_pow(bits) / 8;
                    if next * 8 > total_size {
                        (Err(EndpointAllocError::BufferOverflow), alloc, pool)
                    } else {
                        (
                            Ok(i as u8),
                            alloc.update(
                                i,
                                claim(
                                    alloc[i],
                                    ep_type,
                                    dir,
                                    max_packet_size,
                                    Some((bits as u8, next_addr_8bytes)),
                                ),
                            ),
                            FifoPool::Dynamic { total_size, next_addr_8bytes: next as u16 },
                        )
                    }
                },
            }
        },
    }
}

impl EndpointData {
    /// A slot that nothing has taken.
    pub fn unused() -> (r: EndpointData)
        ensures
            !r.used_tx,
            !r.used_rx,
            r.ep_conf.ep_type == EndpointType::Bulk,
    {
        EndpointData {
            ep_conf: EndpointConfig {
                ep_type: EndpointType::Bulk,
                tx_max_packet_size: 0,
                rx_max_packet_size: 0,
                tx_fifo_size_bits: 0,
                rx_fifo_size_bits: 0,
                tx_fifo_addr_8bytes: 0,
                rx_fifo_addr_8bytes: 0,
            },
            used_tx: false,
            used_rx: false,
        }
    }
}

/// A slot table of `n` unused slots.
pub fn new_endpoint_table(n: usize) -> (r: Vec<EndpointData>)
    ensures
        r@.len() == n,
        forall|i: int| 0 <= i < n ==> !(#[trigger] r@[i]).used_tx && !r@[i].used_rx,
{
    let mut v: Vec<EndpointData> = Vec::new();
    let mut k: usize = 0;
    while k < n
        invariant
            k <= n,
            v@.len() == k,
            forall|i: int| 0 <= i < k ==> !(#[trigger] v@[i]).used_tx && !v@[i].used_rx,
        decreases n - k,
    {
        v.push(EndpointData::unused());
        k += 1;
    }
    v
}

impl FifoPool {
    /// A shared FIFO RAM of `total_size` bytes whose first 64 bytes belong
    /// to endpoint 0.
    pub fn dynamic(total_size: u16) -> (r: FifoPool)
        requires
            total_size >= 64,
        ensures
            r == (FifoPool::Dynamic { total_size, next_addr_8bytes: 8 }),
            pool_wf(r),
    {
        FifoPool::Dynamic { total_size, next_addr_8bytes: 8 }
    }
}

/// Checks whether slot `ep`, whose hardware is described by `info`, can take
/// an endpoint of type `alloc_ep_type` in `direction`.
pub fn check_endpoint(
    ep: &EndpointData,
    info: &EpInfo,
    alloc_ep_type: EndpointType,
    direction: Direction,
    max_packet_size: u16,
) -> (r: Result<(), EndpointAllocError>)
    ensures
        r == check_spec(*ep, *info, alloc_ep_type, direction, max_packet_size),
{
    let used = ep.used_rx || ep.used_tx;
    if max_packet_size > info.max_packet_size {
        return Err(EndpointAllocError::MaxPacketSizeBiggerThanEpFifoSize);
    }
    if info.ep_direction != EpDirection::RXTX {
        match direction {
            Direction::Out => {
                if info.ep_direction != EpDirection::RX {
                    return Err(EndpointAllocError::EpDirNotSupported);
                }
            },
            Direction::In => {
                if info.ep_direction != EpDirection::TX {
                    return Err(EndpointAllocError::EpDirNotSupported);
                }
            },
        }
    }
    if alloc_ep_type == EndpointType::Bulk && used {
        return Err(EndpointAllocError::EpUsed);
    }
    let used_dir = match direction {
        Direction::Out => ep.used_rx,
        Direction::In => ep.used_tx,
    };
    if !used || (ep.ep_conf.ep_type == alloc_ep_type && !used_dir) {
        Ok(())
    } else {
        Err(EndpointAllocError::EpUsed)
    }
}

/// log2 of the FIFO partition for `max_packet_size`, and its size in bytes.
pub fn fifo_partition(max_packet_size: u16) -> (r: (u8, u32))
    ensures
        r.0 as nat == fifo_bits(max_packet_size),
        r.1 as nat == two_pow(r.0 as nat),
        r.0 <= 16,
        r.1 <= 131072,
{
    let mut k: u8 = 3;
    let mut size: u32 = 8;
    proof {
        reveal_with_fuel(two_pow, 4);
    }
    while k < 16 && size < max_packet_size as u32
        invariant
            3 <= k <= 16,
            size as nat == two_pow(k as nat),
            size <= 131072,
            log2_ceil_from(k as nat, max_packet_size as nat) == fifo_bits(max_packet_size),
        decreases 16 - k,
    {
        k = k + 1;
        size = size * 2;
    }
    (k, size)
}

/// Scans indices from 1 upward for the first slot that passes the checks.
fn find_free_slot(
    alloc: &Vec<EndpointData>,
    infos: &[EpInfo],
    ep_type: EndpointType,
    direction: Direction,
    max_packet_size: u16,
) -> (r: Option<usize>)
    requires
        table_wf(alloc@, infos@),
    ensures
        r matches Some(i) ==> first_free(alloc@, infos@, ep_type, direction, max_packet_size, 1)
            == Some(i as int),
        r is None ==> first_free(alloc@, infos@, ep_type, direction, max_packet_size, 1) is None,
        r matches Some(i) ==> 1 <= i < alloc@.len(),
{
    let mut i: usize = 1;
    while i < alloc.len()
        invariant
            table_wf(alloc@, infos@),
            1 <= i <= alloc@.len(),
            first_free(alloc@, infos@, ep_type, direction, max_packet_size, i as int)
                == first_free(alloc@, infos@, ep_type, direction, max_packet_size, 1),
        decreases alloc@.len() - i,
    {
        if check_endpoint(&alloc[i], &infos[i], ep_type, direction, max_packet_size).is_ok() {
            return Some(i);
        }
        i += 1;
    }
    None
}

/// Reserves an endpoint index for `ep_type` in `direction`.
///
/// With `Some(0)` the control pipe's index is taken, which always succeeds.
/// With another `Some(i)` slot `i` is checked; with `None` the indices from 1
/// upward are scanned and the first that passes is taken. Where the FIFOs are
/// carved from shared RAM, the slot also receives the next partition of the
/// smallest power-of-two size (at least 8 bytes) that holds a packet.
pub fn alloc_endpoint(
    alloc: &mut Vec<EndpointData>,
    infos: &[EpInfo],
    pool: &mut FifoPool,
    ep_type: EndpointType,
    ep_index: Option<u8>,
    direction: Direction,
    max_packet_size: u16,
) -> (r: Result<u8, EndpointAllocError>)
    requires
        table_wf(old(alloc)@, infos@),
        pool_wf(*old(pool)),
    ensures
        (r, final(alloc)@, *final(pool)) == alloc_spec(
            old(alloc)@,
            infos@,
            *old(pool),
            ep_type,
            ep_index,
            direction,
            max_packet_size,
        ),
        table_wf(final(alloc)@, infos@),
        pool_wf(*final(pool)),
{
    let index: usize = match ep_index {
        Some(i) => {
            if i as usize >= alloc.len() {
                return Err(EndpointAllocError::EndpointOverflow);
            }
            if i != 0 {
                match check_endpoint(
                    &alloc[i as usize],
                    &infos[i as usize],
                    ep_type,
                    direction,
                    max_packet_size,
                ) {
                    Ok(_) => {},
                    Err(e) => {
                        return Err(e);
                    },
                }
            }
            i as usize
        },
        None => match find_free_slot(alloc, infos, ep_type, direction, max_packet_size) {
            Some(i) => i,
            None => {
                return Err(EndpointAllocError::EndpointOverflow);
            },
        },
    };
    let (bits, size) = fifo_partition(max_packet_size);
    let sized: Option<(u8, u16)> = match *pool {
        FifoPool::Fixed => None,
        FifoPool::Dynamic { total_size, next_addr_8bytes } => {
            if index == 0 {
                Some((bits, 0u16))
            } else {
                let next: u32 = next_addr_8bytes as u32 + size / 8;
                if next * 8 > total_size as u32 {
                    return Err(EndpointAllocError::BufferOverflow);
                }
                *pool = FifoPool::Dynamic { total_size, next_addr_8bytes: next as u16 };
                Some((bits, next_addr_8bytes))
            }
        },
    };
    let mut ep = alloc[index];
    ep.ep_conf.ep_type = ep_type;
    match direction {
        Direction::Out => {
            ep.ep_conf.rx_max_packet_size = max_packet_size;
            if let Some((b, a)) = sized {
                ep.ep_conf.rx_fifo_size_bits = b;
                ep.ep_conf.rx_fifo_addr_8bytes = a;
            }
            ep.used_rx = true;
        },
        Direction::In => {
            ep.ep_conf.tx_max_packet_size = max_packet_size;
            if let Some((b, a)) = sized {
                ep.ep_conf.tx_fifo_size_bits = b;
                ep.ep_conf.tx_fifo_addr_8bytes = a;
            }
            ep.used_tx = true;
        },
    }
    alloc.set(index, ep);
    Ok(index as u8)
}

/// One allocation request, as a sequence of requests records it.
#[derive(Clone, Copy, Debug, PartialEq, Eq, Structural)]
pub struct AllocRequest {
    pub ep_type: EndpointType,
    pub ep_index: Option<u8>,
    pub direction: Direction,
    pub max_packet_size: u16,
}

/// The slot table and pool after the first `n` requests of `reqs`.
pub open spec fn state_at(
    alloc: Seq<EndpointData>,
    infos: Seq<EpInfo>,
    pool: FifoPool,
    reqs: Seq<AllocRequest>,
    n: nat,
) -> (Seq<EndpointData>, FifoPool)
    decreases n,
{
    if n == 0 {
        (alloc, pool)
    } else {
        let prev = state_at(alloc, infos, pool, reqs, (n - 1) as nat);
        let q = reqs[n - 1];
        let out = alloc_spec(
            prev.0,
            infos,
            prev.1,
            q.ep_type,
            q.ep_index,
            q.direction,
            q.max_packet_size,
        );
        (out.1, out.2)
    }
}

/// The result of request `n` of `reqs`, made after the requests before it.
pub open spec fn result_at(
    alloc: Seq<EndpointData>,
    infos: Seq<EpInfo>,
    pool: FifoPool,
    reqs: Seq<AllocRequest>,
    n: nat,
) -> Result<u8, EndpointAllocError> {
    let st = state_at(alloc, infos, pool, reqs, n);
    let q = reqs[n as int];
    alloc_spec(st.0, infos, st.1, q.ep_type, q.ep_index, q.direction, q.max_packet_size).0
}

proof fn lemma_first_free(
    alloc: Seq<EndpointData>,
    infos: Seq<EpInfo>,
    ep_type: EndpointType,
    dir: Direction,
    max_packet_size: u16,
    k: int,
)
    requires
        0 <= k,
    ensures
        first_free(alloc, infos, ep_type, dir, max_packet_size, k) matches Some(i) ==> k <= i
            < alloc.len() && check_spec(alloc[i], infos[i], ep_type, dir, max_packet_size) is Ok,
    decreases alloc.len() - k,
{
    if k < alloc.len() && !(check_spec(alloc[k], infos[k], ep_type, dir, max_packet_size) is Ok) {
        lemma_first_free(alloc, infos, ep_type, dir, max_packet_size, k + 1);
    }
}

/// One request: a slot that passed the checks, at a non-zero index, was free
/// in the requested direction and is taken afterwards; no slot loses a
/// direction it had; the table keeps its length and the pool its bound.
proof fn lemma_alloc_step(
    alloc: Seq<EndpointData>,
    infos: Seq<EpInfo>,
    pool: FifoPool,
    q: AllocRequest,
)
    requires
        table_wf(alloc, infos),
        pool_wf(pool),
    ensures
        ({
            let out = alloc_spec(
                alloc,
                infos,
                pool,
                q.ep_type,
                q.ep_index,
                q.direction,
                q.max_packet_size,
            );
            &&& table_wf(out.1, infos)
            &&& pool_wf(out.2)
            &&& forall|m: int, d: Direction|
                0 <= m < alloc.len() && used_in(alloc[m], d) ==> #[trigger] used_in(out.1[m], d)
            &&& out.0 matches Ok(i) ==> i < alloc.len() && used_in(out.1[i as int], q.direction)
            &&& q.ep_index is None ==> (out.0 matches Ok(i) ==> i != 0)
            &&& out.0 matches Ok(i) ==> i != 0 ==> check_spec(
                alloc[i as int],
                infos[i as int],
                q.ep_type,
                q.direction,
                q.max_packet_size,
            ) is Ok
        }),
{
    lemma_first_free(alloc, infos, q.ep_type, q.direction, q.max_packet_size, 1);
}

proof fn lemma_state_wf(
    alloc: Seq<EndpointData>,
    infos: Seq<EpInfo>,
    pool: FifoPool,
    reqs: Seq<AllocRequest>,
    n: nat,
)
    requires
        table_wf(alloc, infos),
        pool_wf(pool),
        n <= reqs.len(),
    ensures
        table_wf(state_at(alloc, infos, pool, reqs, n).0, infos),
        pool_wf(state_at(alloc, infos, pool, reqs, n).1),
    decreases n,
{
    if n > 0 {
        lemma_state_wf(alloc, infos, pool, reqs, (n - 1) as nat);
        lemma_alloc_step(
            state_at(alloc, infos, pool, reqs, (n - 1) as nat).0,
            infos,
            state_at(alloc, infos, pool, reqs, (n - 1) as nat).1,
            reqs[n - 1],
        );
    }
}

proof fn lemma_used_persists(
    alloc: Seq<EndpointData>,
    infos: Seq<EpInfo>,
    pool: FifoPool,
    reqs: Seq<AllocRequest>,
    j: nat,
    n: nat,
    m: int,
    d: Direction,
)
    requires
        table_wf(alloc, infos),
        pool_wf(pool),
        j <= n <= reqs.len(),
        0 <= m < alloc.len(),
        used_in(state_at(alloc, infos, pool, reqs, j).0[m], d),
    ensures
        used_in(state_at(alloc, infos, pool, reqs, n).0[m], d),
    decreases n - j,
{
    if j < n {
        lemma_state_wf(alloc, infos, pool, reqs, j);
        lemma_alloc_step(
            state_at(alloc, infos, pool, reqs, j).0,
            infos,
            state_at(alloc, infos, pool, reqs, j).1,
            reqs[j as int],
        );
        lemma_used_persists(alloc, infos, pool, reqs, j + 1, n, m, d);
    }
}

/// In any sequence of requests, no two successful allocations claim the same
/// non-zero index in the same direction.
pub proof fn lemma_allocation_exclusive(
    alloc: Seq<EndpointData>,
    infos: Seq<EpInfo>,
    pool: FifoPool,
    reqs: Seq<AllocRequest>,
    j: nat,
    k: nat,
)
    requires
        table_wf(alloc, infos),
        pool_wf(pool),
        j < k < reqs.len(),
        reqs[j as int].direction == reqs[k as int].direction,
        result_at(alloc, infos, pool, reqs, j) is Ok,
        result_at(alloc, infos, pool, reqs, j) != Ok::<u8, EndpointAllocError>(0),
    ensures
        result_at(alloc, infos, pool, reqs, k) != result_at(alloc, infos, pool, reqs, j),
{
    let d = reqs[j as int].direction;
    lemma_state_wf(alloc, infos, pool, reqs, j);
    lemma_state_wf(alloc, infos, pool, reqs, k);
    let sj = state_at(alloc, infos, pool, reqs, j);
    let sk = state_at(alloc, infos, pool, reqs, k);
    lemma_alloc_step(sj.0, infos, sj.1, reqs[j as int]);
    lemma_alloc_step(sk.0, infos, sk.1, reqs[k as int]);
    let i = result_at(alloc, infos, pool, reqs, j)->Ok_0;
    assert(state_at(alloc, infos, pool, reqs, j + 1).0 == alloc_spec(
        sj.0,
        infos,
        sj.1,
        reqs[j as int].ep_type,
        reqs[j as int].ep_index,
        d,
        reqs[j as int].max_packet_size,
    ).1);
    lemma_used_persists(alloc, infos, pool, reqs, j + 1, k, i as int, d);
}

/// Index 0 is always granted, whatever was allocated before.
pub proof fn lemma_control_index_available(
    alloc: Seq<EndpointData>,
    infos: Seq<EpInfo>,
    pool: FifoPool,
    ep_type: EndpointType,
    dir: Direction,
    max_packet_size: u16,
)
    requires
        table_wf(alloc, infos),
        pool_wf(pool),
    ensures
        alloc_spec(alloc, infos, pool, ep_type, Some(0u8), dir, max_packet_size).0 == Ok::<
            u8,
            EndpointAllocError,
        >(0),
{
}

/// A successful allocation at a non-zero index never asks for more than the
/// endpoint's FIFO holds; with shared FIFO RAM, the partition handed out
/// starts at the old cursor, the cursor moves past it, and the cursor never
/// passes the end of the RAM.
pub proof fn lemma_capacity(
    alloc: Seq<EndpointData>,
    infos: Seq<EpInfo>,
    pool: FifoPool,
    q: AllocRequest,
)
    requires
        table_wf(alloc, infos),
        pool_wf(pool),
    ensures
        ({
            let out = alloc_spec(
                alloc,
                infos,
                pool,
                q.ep_type,
                q.ep_index,
                q.direction,
                q.max_packet_size,
            );
            &&& pool_wf(out.2)
            &&& out.0 matches Ok(i) ==> i != 0 ==> q.max_packet_size <= infos[i as int].max_packet_size
            &&& out.0 matches Ok(i) ==> (i != 0 ==> (pool matches FifoPool::Dynamic {
                total_size,
                next_addr_8bytes,
            } ==> (out.2 == FifoPool::Dynamic {
                total_size,
                next_addr_8bytes: (next_addr_8bytes + two_pow(fifo_bits(q.max_packet_size)) / 8) as u16,
            } && out.1[i as int].ep_conf.tx_fifo_addr_8bytes == (if q.direction == Direction::In {
                next_addr_8bytes
            } else {
                alloc[i as int].ep_conf.tx_fifo_addr_8bytes
            }) && out.1[i as int].ep_conf.rx_fifo_addr_8bytes == (if q.direction == Direction::Out {
                next_addr_8bytes
            } else {
                alloc[i as int].ep_conf.rx_fifo_addr_8bytes
            }))))
        }),
{
    lemma_alloc_step(alloc, infos, pool, q);
    lemma_first_free(alloc, infos, q.ep_type, q.direction, q.max_packet_size, 1);
    let sel = select_slot(alloc, infos, q.ep_type, q.ep_index, q.direction, q.max_packet_size);
    if sel is Ok {
        let i = sel->Ok_0;
        assert(0 <= i < alloc.len());
        assert((i as u8) as int == i);
    }
}

/// The capacity bound holds after every prefix of a sequence of requests.
pub proof fn lemma_capacity_run(
    alloc: Seq<EndpointData>,
    infos: Seq<EpInfo>,
    pool: FifoPool,
    reqs: Seq<AllocRequest>,
    n: nat,
)
    requires
        table_wf(alloc, infos),
        pool_wf(pool),
        n <= reqs.len(),
    ensures
        pool_wf(state_at(alloc, infos, pool, reqs, n).1),
{
    lemma_state_wf(alloc, infos, pool, reqs, n);
}

/// A Bulk request for a non-zero index whose slot is in use in either
/// direction fails with `EpUsed`, once the size and direction checks pass; a
/// Bulk request by scan only lands on a slot that nothing uses.
pub proof fn lemma_bulk_exclusive(
    alloc: Seq<EndpointData>,
    infos: Seq<EpInfo>,
    pool: FifoPool,
    ep_index: Option<u8>,
    dir: Direction,
    max_packet_size: u16,
)
    requires
        table_wf(alloc, infos),
        pool_wf(pool),
    ensures
        ep_index matches Some(i) ==> 0 < i < alloc.len() ==> (alloc[i as int].used_tx
            || alloc[i as int].used_rx) ==> max_packet_size <= infos[i as int].max_packet_size
            ==> direction_supported(infos[i as int].ep_direction, dir) ==> alloc_spec(
            alloc,
            infos,
            pool,
            EndpointType::Bulk,
            ep_index,
            dir,
            max_packet_size,
        ).0 == Err::<u8, EndpointAllocError>(EndpointAllocError::EpUsed),
        ep_index is None ==> (alloc_spec(
            alloc,
            infos,
            pool,
            EndpointType::Bulk,
            ep_index,
            dir,
            max_packet_size,
        ).0 matches Ok(i) ==> (!alloc[i as int].used_tx && !alloc[i as int].used_rx)),
{
    lemma_alloc_step(
        alloc,
        infos,
        pool,
        AllocRequest { ep_type: EndpointType::Bulk, ep_index, direction: dir, max_packet_size },
    );
}

} // verus!
